use vstd::prelude::*;

verus! {

/// A character that ends a line of the diagnostic stream.
pub open spec fn is_terminator(c: char) -> bool {
    c == '\r' || c == '\n'
}

/// What scanning has produced so far: the complete non-empty lines, and the
/// text after the last terminator.
pub type ScanState = (Seq<Seq<char>>, Seq<char>);

/// The effect of one more character on a scan.
pub open spec fn scan_step(st: ScanState, c: char) -> ScanState {
    if is_terminator(c) {
        (if st.1.len() > 0 { st.0.push(st.1) } else { st.0 }, Seq::empty())
    } else {
        (st.0, st.1.push(c))
    }
}

/// Scanning the text `s` from the state `st`, one character at a time.
pub open spec fn scan(st: ScanState, s: Seq<char>) -> ScanState
    decreases s.len(),
{
    if s.len() == 0 {
        st
    } else {
        scan_step(scan(st, s.drop_last()), s.last())
    }
}

/// The lines of `s` and its unterminated tail, scanned from nothing.
pub open spec fn split_text(s: Seq<char>) -> ScanState {
    scan((Seq::empty(), Seq::empty()), s)
}

pub open spec fn has_terminator(s: Seq<char>) -> bool {
    exists|i: int| 0 <= i < s.len() && is_terminator(#[trigger] s[i])
}

pub open spec fn lines_view(v: Seq<String>) -> Seq<Seq<char>> {
    v.map_values(|l: String| l@)
}

/// All the chunks, one after the other.
pub open spec fn concat_chunks(chunks: Seq<Seq<char>>) -> Seq<char>
    decreases chunks.len(),
{
    if chunks.len() == 0 {
        Seq::empty()
    } else {
        concat_chunks(chunks.drop_last()) + chunks.last()
    }
}

/// The lines emitted over a run of chunks fed one by one, and the text held at
/// the end: each chunk is scanned from the tail that the previous ones left.
pub open spec fn feed_chunks(chunks: Seq<Seq<char>>) -> ScanState
    decreases chunks.len(),
{
    if chunks.len() == 0 {
        (Seq::empty(), Seq::empty())
    } else {
        let before = feed_chunks(chunks.drop_last());
        let now = scan((Seq::empty(), before.1), chunks.last());
        (before.0 + now.0, now.1)
    }
}

/// Scanning two texts in a row is scanning their concatenation.
pub proof fn lemma_scan_append(st: ScanState, a: Seq<char>, b: Seq<char>)
    ensures
        scan(st, a + b) == scan(scan(st, a), b),
    decreases b.len(),
{
    if b.len() == 0 {
        assert(a + b =~= a);
    } else {
        assert((a + b).drop_last() =~= a + b.drop_last());
        assert((a + b).last() == b.last());
        lemma_scan_append(st, a, b.drop_last());
    }
}

/// Lines found earlier only stand in front of the lines a scan adds.
pub proof fn lemma_scan_prefix(lines: Seq<Seq<char>>, rest: Seq<char>, s: Seq<char>)
    ensures
        scan((lines, rest), s) == (lines + scan((Seq::empty(), rest), s).0, scan(
            (Seq::empty(), rest),
            s,
        ).1),
    decreases s.len(),
{
    if s.len() == 0 {
        assert(lines + Seq::<Seq<char>>::empty() =~= lines);
    } else {
        lemma_scan_prefix(lines, rest, s.drop_last());
        let inner = scan((Seq::empty(), rest), s.drop_last());
        if is_terminator(s.last()) && inner.1.len() > 0 {
            assert((lines + inner.0).push(inner.1) =~= lines + inner.0.push(inner.1));
        }
    }
}

/// The tail that a scan leaves holds no terminator.
pub proof fn lemma_scan_tail(st: ScanState, s: Seq<char>)
    requires
        !has_terminator(st.1),
    ensures
        !has_terminator(scan(st, s).1),
    decreases s.len(),
{
    if s.len() > 0 {
        lemma_scan_tail(st, s.drop_last());
        let inner = scan(st, s.drop_last());
        if !is_terminator(s.last()) {
            let t = inner.1.push(s.last());
            assert forall|i: int| 0 <= i < t.len() implies !is_terminator(#[trigger] t[i]) by {
                if i < inner.1.len() {
                    assert(t[i] == inner.1[i]);
                }
            }
        }
    }
}

/// Text without a terminator yields no line and is kept whole.
pub proof fn lemma_scan_no_terminator(rest: Seq<char>, s: Seq<char>)
    requires
        !has_terminator(s),
    ensures
        scan((Seq::empty(), rest), s) == (Seq::<Seq<char>>::empty(), rest + s),
    decreases s.len(),
{
    if s.len() == 0 {
        assert(rest + s =~= rest);
    } else {
        let d = s.drop_last();
        assert forall|i: int| 0 <= i < d.len() implies !is_terminator(#[trigger] d[i]) by {
            assert(d[i] == s[i]);
        }
        lemma_scan_no_terminator(rest, d);
        assert(!is_terminator(s[s.len() - 1]));
        assert((rest + d).push(s.last()) =~= rest + s);
    }
}

/// Feeding a stream to the splitter in chunks gives, in order, exactly the
/// non-empty lines of the whole stream split at every `\r` or `\n`, and keeps
/// its unterminated tail, wherever the chunk boundaries fall.
pub proof fn lemma_chunking_invisible(chunks: Seq<Seq<char>>)
    ensures
        feed_chunks(chunks) == split_text(concat_chunks(chunks)),
    decreases chunks.len(),
{
    if chunks.len() > 0 {
        let init = chunks.drop_last();
        lemma_chunking_invisible(init);
        let before = split_text(concat_chunks(init));
        lemma_scan_append((Seq::empty(), Seq::empty()), concat_chunks(init), chunks.last());
        lemma_scan_prefix(before.0, before.1, chunks.last());
    }
}

/// The pieces of `s` between terminators, in order: one more than there are
/// terminators, the last one being the unterminated tail.
pub open spec fn pieces(s: Seq<char>) -> Seq<Seq<char>>
    decreases s.len(),
{
    if s.len() == 0 {
        seq![Seq::empty()]
    } else {
        let ps = pieces(s.drop_last());
        if is_terminator(s.last()) {
            ps.push(Seq::empty())
        } else {
            ps.update(ps.len() - 1, ps.last().push(s.last()))
        }
    }
}

/// The non-empty ones of `ps`, in order.
pub open spec fn non_empty(ps: Seq<Seq<char>>) -> Seq<Seq<char>>
    decreases ps.len(),
{
    if ps.len() == 0 {
        Seq::empty()
    } else if ps.last().len() > 0 {
        non_empty(ps.drop_last()).push(ps.last())
    } else {
        non_empty(ps.drop_last())
    }
}

pub proof fn lemma_pieces_not_empty(s: Seq<char>)
    ensures
        pieces(s).len() >= 1,
    decreases s.len(),
{
    if s.len() > 0 {
        lemma_pieces_not_empty(s.drop_last());
    }
}

/// The lines that the splitter emits for a text are its pieces between
/// terminators, without the last one and without the empty ones; what it
/// holds back is that last piece.
pub proof fn lemma_split_on_terminators(s: Seq<char>)
    ensures
        split_text(s) == (non_empty(pieces(s).drop_last()), pieces(s).last()),
    decreases s.len(),
{
    if s.len() > 0 {
        let d = s.drop_last();
        lemma_split_on_terminators(d);
        lemma_pieces_not_empty(d);
        let ps = pieces(d);
        if is_terminator(s.last()) {
            assert(ps.push(Seq::empty()).drop_last() =~= ps);
        } else {
            let qs = ps.update(ps.len() - 1, ps.last().push(s.last()));
            assert(qs.drop_last() =~= ps.drop_last());
        }
    }
}

/// Names what `String::from_utf8_lossy` makes of a run of bytes.
pub uninterp spec fn lossy_text(bytes: Seq<u8>) -> Seq<char>;

/// Relies on `String::from_utf8_lossy`: the bytes read as UTF-8, with each
/// invalid sequence replaced; no bytes give no text.
#[verifier::external_body]
fn decode_lossy(bytes: &[u8]) -> (r: String)
    ensures
        r@ == lossy_text(bytes@),
        bytes@.len() == 0 ==> r@.len() == 0,
{
    String::from_utf8_lossy(bytes).into_owned()
}

/// Takes every complete line out of `partial`: returns the non-empty text
/// before each `\r` or `\n`, in order, and leaves in `partial` what follows
/// the last terminator.
pub fn partial_line_action(partial: &mut String) -> (lines: Vec<String>)
    ensures
        (lines_view(lines@), final(partial)@) == split_text(old(partial)@),
        lines_view(lines@) == non_empty(pieces(old(partial)@).drop_last()),
        final(partial)@ == pieces(old(partial)@).last(),
{
    let ghost s = partial@;
    let n = partial.as_str().unicode_len();
    let mut lines: Vec<String> = Vec::new();
    let mut start: usize = 0;
    let mut i: usize = 0;
    while i < n
        invariant
            partial@ == s,
            n == s.len(),
            start <= i <= n,
            (lines_view(lines@), s.subrange(start as int, i as int)) == split_text(
                s.subrange(0, i as int),
            ),
        decreases n - i,
    {
        let c = partial.as_str().get_char(i);
        proof {
            let t = s.subrange(0, i as int + 1);
            assert(t.drop_last() =~= s.subrange(0, i as int));
            assert(t.last() == c);
        }
        if c == '\r' || c == '\n' {
            if start < i {
                let line = partial.as_str().substring_char(start, i).to_owned();
                let ghost before = lines@;
                lines.push(line);
                proof {
                    assert(lines_view(lines@) =~= lines_view(before).push(line@));
                }
            }
            start = i + 1;
            proof {
                assert(s.subrange(start as int, i as int + 1) =~= Seq::<char>::empty());
            }
        } else {
            proof {
                assert(s.subrange(start as int, i as int + 1) =~= s.subrange(start as int, i as int).push(c));
            }
        }
        i = i + 1;
    }
    proof {
        assert(s.subrange(0, n as int) =~= s);
    }
    proof {
        lemma_split_on_terminators(s);
    }
    let rest = partial.as_str().substring_char(start, n).to_owned();
    *partial = rest;
    lines
}

/// An incremental splitter of a diagnostic stream into lines. It holds the
/// text read since the last line terminator.
pub struct LineSplitter {
    partial: String,
}

impl LineSplitter {
    /// The text held back, waiting for its terminator.
    pub closed spec fn pending(&self) -> Seq<char> {
        self.partial@
    }

    /// The held text never contains a terminator.
    pub closed spec fn wf(&self) -> bool {
        !has_terminator(self.partial@)
    }

    pub fn new() -> (r: LineSplitter)
        ensures
            r.wf(),
            r.pending() == Seq::<char>::empty(),
    {
        LineSplitter { partial: String::new() }
    }

    /// The text held back, waiting for its terminator.
    pub fn pending_text(&self) -> (r: String)
        ensures
            r@ == self.pending(),
    {
        self.partial.clone()
    }

    /// Appends `chunk` to the held text and returns the lines it completes.
    pub fn feed_text(&mut self, chunk: &str) -> (lines: Vec<String>)
        requires
            old(self).wf(),
        ensures
            final(self).wf(),
            (lines_view(lines@), final(self).pending()) == scan(
                (Seq::empty(), old(self).pending()),
                chunk@,
            ),
    {
        let ghost held = self.partial@;
        self.partial.append(chunk);
        let lines = partial_line_action(&mut self.partial);
        proof {
            lemma_scan_append((Seq::empty(), Seq::empty()), held, chunk@);
            lemma_scan_no_terminator(Seq::empty(), held);
            assert(Seq::<char>::empty() + held =~= held);
            lemma_scan_tail((Seq::empty(), held), chunk@);
        }
        lines
    }

    /// Decodes a chunk of bytes read from the stream (invalid UTF-8 replaced,
    /// never fatal) and returns the lines it completes.
    pub fn feed(&mut self, bytes: &[u8]) -> (lines: Vec<String>)
        requires
            old(self).wf(),
        ensures
            final(self).wf(),
            (lines_view(lines@), final(self).pending()) == scan(
                (Seq::empty(), old(self).pending()),
                lossy_text(bytes@),
            ),
    {
        let text = decode_lossy(bytes);
        self.feed_text(text.as_str())
    }
}

/// Feeds `chunks` one by one to a fresh splitter. Returns every line emitted,
/// in order, and the text still held at the end: the same as splitting the
/// chunks' concatenation, wherever the boundaries fall.
pub fn split_chunks(chunks: &Vec<String>) -> (r: (Vec<String>, String))
    ensures
        (lines_view(r.0@), r.1@) == split_text(concat_chunks(chunks@.map_values(|c: String| c@))),
        (lines_view(r.0@), r.1@) == feed_chunks(chunks@.map_values(|c: String| c@)),
        lines_view(r.0@) == non_empty(pieces(concat_chunks(chunks@.map_values(|c: String| c@))).drop_last()),
        r.1@ == pieces(concat_chunks(chunks@.map_values(|c: String| c@))).last(),
{
    let ghost cs = chunks@.map_values(|c: String| c@);
    let mut splitter = LineSplitter::new();
    let mut lines: Vec<String> = Vec::new();
    let mut i: usize = 0;
    while i < chunks.len()
        invariant
            i <= chunks.len(),
            cs == chunks@.map_values(|c: String| c@),
            splitter.wf(),
            (lines_view(lines@), splitter.pending()) == feed_chunks(cs.subrange(0, i as int)),
        decreases chunks.len() - i,
    {
        proof {
            let t = cs.subrange(0, i as int + 1);
            assert(t.drop_last() =~= cs.subrange(0, i as int));
            assert(t.last() == chunks@[i as int]@);
        }
        let ghost before = lines@;
        let mut more = splitter.feed_text(chunks[i].as_str());
        let ghost added = more@;
        lines.append(&mut more);
        assert(lines_view(lines@) =~= lines_view(before) + lines_view(added));
        i = i + 1;
    }
    proof {
        assert(cs.subrange(0, chunks@.len() as int) =~= cs);
        lemma_chunking_invisible(cs);
        lemma_split_on_terminators(concat_chunks(cs));
    }
    (lines, splitter.pending_text())
}

} // verus!
