use vstd::prelude::*;

verus! {

/// The kind of a notification sent to the event sink.
#[derive(PartialEq, Eq, Structural, Clone, Copy, Debug)]
pub enum FFmpegEvent {
    Error,
    Finish,
    Progress,
}

impl FFmpegEvent {
    /// The label under which the sink receives events of this kind.
    pub open spec fn label(&self) -> Seq<char> {
        match self {
            FFmpegEvent::Error => "error"@,
            FFmpegEvent::Finish => "finish"@,
            FFmpegEvent::Progress => "progress"@,
        }
    }

    pub fn as_str(&self) -> (r: &'static str)
        ensures
            r@ == self.label(),
    {
        match self {
            FFmpegEvent::Error => "error",
            FFmpegEvent::Finish => "finish",
            FFmpegEvent::Progress => "progress",
        }
    }
}

/// A notification for the event sink: its kind and its text.
#[derive(Debug)]
pub struct JobEvent {
    pub kind: FFmpegEvent,
    pub payload: String,
}

pub type EventView = (FFmpegEvent, Seq<char>);

pub open spec fn event_view(e: JobEvent) -> EventView {
    (e.kind, e.payload@)
}

pub open spec fn events_view(v: Seq<JobEvent>) -> Seq<EventView> {
    v.map_values(|e: JobEvent| event_view(e))
}

impl JobEvent {
    pub fn new(kind: FFmpegEvent, payload: &str) -> (r: JobEvent)
        ensures
            event_view(r) == (kind, payload@),
    {
        JobEvent { kind, payload: payload.to_owned() }
    }
}

} // verus!
