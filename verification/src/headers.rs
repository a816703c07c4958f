//! Header lines: those of the client, as policies read them, and those of the decode worker, as
//! they go on to the client.
use crate::exchange::header_lines;
use crate::table::Table;
use crate::text::same;
use vstd::prelude::*;

verus! {

/// A byte that can stand in a header value that is text: visible ASCII, a space or a tab.
pub open spec fn is_visible(byte: u8) -> bool {
    32 <= byte < 127 || byte == 9
}

/// The text of a header value, if it is text.
pub open spec fn header_text(value: Seq<u8>) -> Option<Seq<char>> {
    if forall|i: int| 0 <= i < value.len() ==> is_visible(#[trigger] value[i]) {
        Some(value.map_values(|byte: u8| byte as char))
    } else {
        None
    }
}

/// What `str::to_lowercase` makes of a text.
pub uninterp spec fn lowercase(text: Seq<char>) -> Seq<char>;

/// `str::to_lowercase`: the text in lower case, as Unicode has it.
#[verifier::external_body]
fn to_lowercase(text: &str) -> (lower: String)
    ensures
        lower@ == lowercase(text@),
{
    text.to_lowercase()
}

/// The headers that a policy sees: by name in lower case, those with a text for a value, and of
/// several with one name the last.
pub open spec fn policy_view(lines: Seq<(Seq<char>, Seq<u8>)>) -> Map<Seq<char>, Seq<char>>
    decreases lines.len(),
{
    if lines.len() == 0 {
        Map::empty()
    } else {
        let before = policy_view(lines.drop_last());
        match header_text(lines.last().1) {
            Some(text) => before.insert(lowercase(lines.last().0), text),
            None => before,
        }
    }
}

/// The texts that a table holds.
pub open spec fn texts(table: Map<Seq<char>, String>) -> Map<Seq<char>, Seq<char>> {
    table.map_values(|text: String| text@)
}

/// Whether a header line of a worker goes on to the client: not where it speaks of how the body
/// was sent.
pub open spec fn is_forwarded(line: (Seq<char>, Seq<u8>)) -> bool {
    line.0 != "transfer-encoding"@ && line.0 != "content-length"@
}

/// The text of a header value, if it is text.
pub fn value_to_str(value: &Vec<u8>) -> (text: Option<String>)
    ensures
        match text {
            Some(text) => header_text(value@) == Some(text@),
            None => header_text(value@) is None,
        },
{
    let mut text = String::new();
    for i in 0..value.len()
        invariant
            text@ == value@.take(i as int).map_values(|byte: u8| byte as char),
            forall|j: int| 0 <= j < i ==> is_visible(#[trigger] value[j]),
    {
        let byte: u8 = value[i];
        if !((32 <= byte && byte < 127) || byte == 9) {
            assert(!is_visible(value[i as int]));
            return None;
        }
        text.push(byte as char);
        assert(value@.take(i + 1) =~= value@.take(i as int).push(byte));
        assert(text@ =~= value@.take(i + 1).map_values(|byte: u8| byte as char));
    }
    assert(value@.take(value.len() as int) =~= value@);
    Some(text)
}

/// Adds a header, whose name is in lower case already, to those that a policy sees, if its value
/// is text.
pub fn add_policy_header(table: &mut Table<String>, name: String, value: &Vec<u8>)
    requires
        old(table).wf(),
    ensures
        final(table).wf(),
        texts(final(table)@) == match header_text(value@) {
            Some(text) => texts(old(table)@).insert(name@, text),
            None => texts(old(table)@),
        },
{
    if let Some(text) = value_to_str(value) {
        let _ = table.insert(name, text);
        assert(texts(table@) =~= texts(old(table)@).insert(name@, text@));
    }
}

/// The client's headers as a policy sees them.
pub fn policy_headers(headers: &Vec<(String, Vec<u8>)>) -> (table: Table<String>)
    ensures
        table.wf(),
        texts(table@) == policy_view(header_lines(headers@)),
{
    let mut table: Table<String> = Table::new();
    let ghost lines = header_lines(headers@);
    assert(texts(table@) =~= policy_view(lines.take(0)));
    for i in 0..headers.len()
        invariant
            table.wf(),
            lines == header_lines(headers@),
            texts(table@) == policy_view(lines.take(i as int)),
    {
        assert(lines.take(i + 1).drop_last() =~= lines.take(i as int));
        let name = to_lowercase(headers[i].0.as_str());
        add_policy_header(&mut table, name, &headers[i].1);
    }
    assert(lines.take(headers.len() as int) =~= lines);
    table
}

/// The header lines of a worker that go on to the client, in order.
pub fn forwarded_headers(headers: &Vec<(String, Vec<u8>)>) -> (forwarded: Vec<(String, Vec<u8>)>)
    ensures
        header_lines(forwarded@) == header_lines(headers@).filter(
            |line: (Seq<char>, Seq<u8>)| is_forwarded(line),
        ),
{
    let mut forwarded: Vec<(String, Vec<u8>)> = Vec::new();
    let ghost lines = header_lines(headers@);
    let ghost keep = |line: (Seq<char>, Seq<u8>)| is_forwarded(line);
    assert(header_lines(forwarded@) =~= lines.take(0).filter(keep)) by {
        reveal(Seq::filter);
    }
    for i in 0..headers.len()
        invariant
            lines == header_lines(headers@),
            keep == (|line: (Seq<char>, Seq<u8>)| is_forwarded(line)),
            header_lines(forwarded@) == lines.take(i as int).filter(keep),
    {
        let ghost before = forwarded@;
        let name = headers[i].0.as_str();
        let goes_on = !same(name, "transfer-encoding") && !same(name, "content-length");
        if goes_on {
            let line = (headers[i].0.clone(), headers[i].1.clone());
            forwarded.push(line);
        }
        proof {
            reveal(Seq::filter);
            assert(lines.take(i + 1).drop_last() =~= lines.take(i as int));
            assert(goes_on == keep(lines[i as int]));
            if goes_on {
                assert(header_lines(forwarded@) =~= header_lines(before).push(lines[i as int]));
            }
        }
    }
    assert(lines.take(headers.len() as int) =~= lines);
    forwarded
}

/// Whatever a filter lets through is what it keeps.
pub proof fn lemma_filter_keeps<T>(all: Seq<T>, keep: spec_fn(T) -> bool)
    ensures
        forall|i: int| 0 <= i < all.filter(keep).len() ==> keep(#[trigger] all.filter(keep)[i]),
    decreases all.len(),
{
    reveal(Seq::filter);
    if all.len() > 0 {
        lemma_filter_keeps(all.drop_last(), keep);
    }
}

} // verus!
