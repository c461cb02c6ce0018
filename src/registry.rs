use vstd::prelude::*;

verus! {

/// The single slot that holds the process id of the running job, if any.
/// Callers on several threads share it behind one lock, so that a store and a
/// take never interleave.
pub struct JobRegistry {
    slot: Option<u32>,
}

/// The slot after `store(id)`.
pub open spec fn after_store(slot: Option<u32>, id: u32) -> Option<u32> {
    Some(id)
}

/// What `take()` returns, and the slot after it.
pub open spec fn after_take(slot: Option<u32>) -> (Option<u32>, Option<u32>) {
    (slot, None)
}

impl View for JobRegistry {
    type V = Option<u32>;

    closed spec fn view(&self) -> Option<u32> {
        self.slot
    }
}

impl JobRegistry {
    /// An empty registry.
    pub fn new() -> (r: JobRegistry)
        ensures
            r@ is None,
    {
        JobRegistry { slot: None }
    }

    /// Records `id` as the running job, replacing whatever was held.
    pub fn store(&mut self, id: u32)
        ensures
            final(self)@ == after_store(old(self)@, id),
    {
        self.slot = Some(id);
    }

    /// Reads and clears the slot in one step.
    pub fn take(&mut self) -> (r: Option<u32>)
        ensures
            (r, final(self)@) == after_take(old(self)@),
    {
        let r = self.slot;
        self.slot = None;
        r
    }

    /// The id held, without clearing it.
    pub fn current(&self) -> (r: Option<u32>)
        ensures
            r == self@,
    {
        self.slot
    }
}

/// Storing an id and then taking gives that id back and leaves the registry
/// empty; taking from an empty registry gives nothing, and doing it again
/// changes nothing.
pub proof fn lemma_store_take(slot: Option<u32>, id: u32)
    ensures
        after_take(after_store(slot, id)) == (Some(id), None::<u32>),
        after_take(None) == (None::<u32>, None::<u32>),
        after_take(after_take(slot).1) == (None::<u32>, None::<u32>),
{
}

} // verus!
