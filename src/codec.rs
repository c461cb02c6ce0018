use vstd::prelude::*;

use crate::path::opt_view;

verus! {

/// One item of the codec table's `video` list: its `key` and `codec` fields,
/// each present only where it is a string.
#[derive(Debug)]
pub struct CodecEntry {
    pub key: Option<String>,
    pub codec: Option<String>,
}

pub type EntryView = (Option<Seq<char>>, Option<Seq<char>>);

pub open spec fn entry_view(e: CodecEntry) -> EntryView {
    (opt_view(e.key), opt_view(e.codec))
}

pub open spec fn entries_view(v: Seq<CodecEntry>) -> Seq<EntryView> {
    v.map_values(|e: CodecEntry| entry_view(e))
}

/// Names the items that serde_json finds under `video` in a codec table
/// document, or `None` where the text is not JSON or has no such list.
pub uninterp spec fn codec_entries_of(text: Seq<char>) -> Option<Seq<EntryView>>;

/// Relies on `serde_json::from_str` into a `serde_json::Value`, then
/// `Value::get`, `Value::as_array` and `Value::as_str`: the `video` list of the
/// document, each item's `key` and `codec` kept where they are strings.
#[verifier::external_body]
fn parse_codec_entries(text: &str) -> (r: Option<Vec<CodecEntry>>)
    ensures
        match r {
            Some(v) => codec_entries_of(text@) == Some(entries_view(v@)),
            None => codec_entries_of(text@) is None,
        },
{
    let value: serde_json::Value = serde_json::from_str(text).ok()?;
    let list = value.get("video")?.as_array()?;
    let field = |item: &serde_json::Value, name: &str| item.get(name).and_then(|v| v.as_str()).map(|v| v.to_owned());
    Some(list.iter().map(|item| CodecEntry { key: field(item, "key"), codec: field(item, "codec") }).collect())
}

/// The codec fragment that the table gives for `selector`: the list is read in
/// order; an item without a string key ends the search with nothing, and the
/// first item whose key is `selector` gives its codec, if that is a string.
pub open spec fn lookup(entries: Seq<EntryView>, selector: Seq<char>) -> Option<Seq<char>>
    decreases entries.len(),
{
    if entries.len() == 0 {
        None
    } else {
        match entries[0].0 {
            None => None,
            Some(k) => if k == selector {
                entries[0].1
            } else {
                lookup(entries.drop_first(), selector)
            },
        }
    }
}

/// The fragment used where the table gives none: copy the streams as they are.
pub open spec fn copy_fragment() -> Seq<char> {
    "-c copy"@
}

pub open spec fn opt_str_view(o: Option<&str>) -> Option<Seq<char>> {
    match o {
        Some(t) => Some(t@),
        None => None,
    }
}

/// What the codec table document `table` (if it could be read) gives for `selector`.
pub open spec fn table_codec(table: Option<Seq<char>>, selector: Seq<char>) -> Option<Seq<char>> {
    match table {
        None => None,
        Some(t) => match codec_entries_of(t) {
            None => None,
            Some(es) => lookup(es, selector),
        },
    }
}

/// The codec fragment of a job: the table's entry, or stream copy.
pub open spec fn codec_fragment(table: Option<Seq<char>>, selector: Seq<char>) -> Seq<char> {
    match table_codec(table, selector) {
        Some(c) => c,
        None => copy_fragment(),
    }
}

/// Looks `selector` up in parsed codec entries.
pub fn lookup_codec(entries: &Vec<CodecEntry>, selector: &str) -> (r: Option<String>)
    ensures
        opt_view(r) == lookup(entries_view(entries@), selector@),
{
    let ghost es = entries_view(entries@);
    let wanted = selector.to_owned();
    let mut i: usize = 0;
    assert(es.subrange(0, es.len() as int) =~= es);
    while i < entries.len()
        invariant
            i <= entries.len(),
            es == entries_view(entries@),
            wanted@ == selector@,
            lookup(es, selector@) == lookup(es.subrange(i as int, es.len() as int), selector@),
        decreases entries.len() - i,
    {
        let ghost tail = es.subrange(i as int, es.len() as int);
        assert(tail[0] == entry_view(entries@[i as int]));
        match &entries[i].key {
            None => {
                return None;
            },
            Some(k) => {
                if k.eq(&wanted) {
                    return match &entries[i].codec {
                        Some(c) => Some(c.clone()),
                        None => None,
                    };
                }
            },
        }
        assert(tail.drop_first() =~= es.subrange(i as int + 1, es.len() as int));
        i = i + 1;
    }
    None
}

/// The codec fragment that the codec table document `table` gives for
/// `encode`, or `None` where the document cannot be read or has no such entry.
pub fn encode_codec(table: Option<&str>, encode: &str) -> (r: Option<String>)
    ensures
        opt_view(r) == table_codec(opt_str_view(table), encode@),
{
    let text = match table {
        Some(t) => t,
        None => return None,
    };
    match parse_codec_entries(text) {
        Some(entries) => lookup_codec(&entries, encode),
        None => None,
    }
}

/// An unknown selector, one that no item of the table has as its key, gets
/// the stream-copy fragment.
pub proof fn lemma_unknown_selector_copies(table: Option<Seq<char>>, selector: Seq<char>)
    requires
        forall|es: Seq<EntryView>, i: int|
            table is Some && codec_entries_of(table->0) == Some(es) && 0 <= i < es.len()
                ==> es[i].0 != Some(selector),
    ensures
        codec_fragment(table, selector) == copy_fragment(),
{
    if let Some(t) = table {
        if let Some(es) = codec_entries_of(t) {
            lemma_lookup_absent(es, selector);
        }
    }
}

pub proof fn lemma_lookup_absent(es: Seq<EntryView>, selector: Seq<char>)
    requires
        forall|i: int| 0 <= i < es.len() ==> es[i].0 != Some(selector),
    ensures
        lookup(es, selector) is None,
    decreases es.len(),
{
    if es.len() > 0 {
        let t = es.drop_first();
        assert forall|i: int| 0 <= i < t.len() implies t[i].0 != Some(selector) by {
            assert(t[i] == es[i + 1]);
        }
        lemma_lookup_absent(t, selector);
    }
}

} // verus!
