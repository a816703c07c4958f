//! Laws on header lines and statuses.
use crate::exchange::{call_headers, header_lines, ResponseHead};
use crate::headers::{
    add_policy_header, forwarded_headers, header_text, is_visible, lowercase, policy_headers,
    policy_view, texts, value_to_str,
};
use crate::laws::direct::lemma_unframed;
use crate::laws::words::{introduces, unframed};
use crate::table::Table;
use vstd::prelude::*;

verus! {

/// Whether bytes are text: visible ASCII, spaces and tabs.
pub open spec fn is_text(value: Seq<u8>) -> bool {
    forall|i: int|
        0 <= i < value.len() ==> #[trigger] value[i] == 9 || (32 <= value[i] && value[i] <= 126)
}

/// Whether a text is that of bytes, one character for each.
pub open spec fn spells(text: Seq<char>, value: Seq<u8>) -> bool {
    &&& text.len() == value.len()
    &&& forall|i: int| 0 <= i < value.len() ==> #[trigger] text[i] as int == value[i] as int
}

/// Bytes that are text have their text, and others have none.
proof fn lemma_header_text(value: Seq<u8>)
    ensures
        header_text(value) is Some <==> is_text(value),
        header_text(value) matches Some(text) ==> spells(text, value),
{
    assert(forall|i: int|
        0 <= i < value.len() ==> (is_visible(#[trigger] value[i]) <==> value[i] == 9 || (32
            <= value[i] && value[i] <= 126)));
}

/// The value of a header has a text where all its bytes are visible ASCII, spaces or tabs, and only
/// there; the text has one character for each byte.
pub proof fn law_values_are_text(value: &Vec<u8>, text: Option<String>)
    requires
        call_ensures(value_to_str, (value,), text),
    ensures
        text is Some <==> is_text(value@),
        text matches Some(said) ==> spells(said@, value@),
{
    lemma_header_text(value@);
}

/// Whether a header line gives a text under a name in lower case.
pub open spec fn gives(line: (Seq<char>, Seq<u8>), name: Seq<char>) -> bool {
    lowercase(line.0) == name && is_text(line.1)
}

/// What policies see under a name is what the last line gives that gives a text under it.
proof fn lemma_policy_view(lines: Seq<(Seq<char>, Seq<u8>)>, name: Seq<char>, last: int)
    ensures
        (forall|i: int| 0 <= i < lines.len() ==> !gives(#[trigger] lines[i], name))
            ==> !policy_view(lines).contains_key(name),
        0 <= last < lines.len() && gives(lines[last], name) && (forall|i: int|
            last < i < lines.len() ==> !gives(#[trigger] lines[i], name)) ==> policy_view(
            lines,
        ).contains_key(name) && spells(policy_view(lines)[name], lines[last].1),
    decreases lines.len(),
{
    if lines.len() > 0 {
        let rest = lines.drop_last();
        lemma_header_text(lines.last().1);
        assert(forall|i: int| 0 <= i < rest.len() ==> rest[i] == lines[i]);
        lemma_policy_view(rest, name, last);
        assert(lines.last() == lines[lines.len() - 1]);
    }
}

/// Under a name in lower case, a policy sees what the last header line gives that has the name, in
/// any case, and a text for a value; and it sees nothing where no line does.
pub proof fn law_policies_see_the_last_text(
    headers: &Vec<(String, Vec<u8>)>,
    table: Table<String>,
    name: Seq<char>,
    last: int,
)
    requires
        call_ensures(policy_headers, (headers,), table),
    ensures
        (forall|i: int|
            0 <= i < headers@.len() ==> !gives(
                ((#[trigger] headers@[i]).0@, headers@[i].1@),
                name,
            )) ==> !table@.contains_key(name),
        0 <= last < headers@.len() && gives((headers@[last].0@, headers@[last].1@), name) && (forall|
            i: int,
        |
            last < i < headers@.len() ==> !gives(
                ((#[trigger] headers@[i]).0@, headers@[i].1@),
                name,
            )) ==> table@.contains_key(name) && spells(table@[name]@, headers@[last].1@),
{
    let lines = header_lines(headers@);
    assert(lines.len() == headers@.len());
    assert(forall|i: int|
        0 <= i < lines.len() ==> #[trigger] lines[i] == (headers@[i].0@, headers@[i].1@));
    lemma_policy_view(lines, name, last);
    assert(texts(table@).dom() =~= table@.dom());
    if table@.contains_key(name) {
        assert(texts(table@)[name] == table@[name]@);
    }
}

/// A header is added to those that a policy sees where its value is text, in place of an earlier
/// one of its name; the others are left alone.
pub proof fn law_a_text_is_added(
    table: &mut Table<String>,
    name: String,
    value: &Vec<u8>,
    other: Seq<char>,
)
    requires
        old(table).wf(),
        other != name@,
        call_ensures(add_policy_header, (table, name, value), ()),
    ensures
        is_text(value@) ==> final(table)@.contains_key(name@) && spells(
            final(table)@[name@]@,
            value@,
        ),
        !is_text(value@) ==> final(table)@.contains_key(name@) == old(table)@.contains_key(name@),
        !is_text(value@) && old(table)@.contains_key(name@) ==> final(table)@[name@]@ == old(
            table,
        )@[name@]@,
        final(table)@.contains_key(other) == old(table)@.contains_key(other),
        final(table)@.contains_key(other) ==> final(table)@[other]@ == old(table)@[other]@,
{
    lemma_header_text(value@);
    let before = old(table)@;
    let after = final(table)@;
    assert(texts(before).contains_key(name@) == before.contains_key(name@));
    assert(texts(after).contains_key(name@) == after.contains_key(name@));
    assert(texts(before).contains_key(other) == before.contains_key(other));
    assert(texts(after).contains_key(other) == after.contains_key(other));
    if after.contains_key(name@) {
        assert(texts(after)[name@] == after[name@]@);
    }
    if before.contains_key(name@) {
        assert(texts(before)[name@] == before[name@]@);
    }
    if before.contains_key(other) {
        assert(texts(before)[other] == before[other]@);
        assert(texts(after)[other] == after[other]@);
    }
}

/// All header lines of a worker go on, in their order, but for those that speak of how a body was
/// sent.
pub proof fn law_framing_stays_behind(
    headers: &Vec<(String, Vec<u8>)>,
    forwarded: Vec<(String, Vec<u8>)>,
)
    requires
        call_ensures(forwarded_headers, (headers,), forwarded),
    ensures
        forwarded@.map_values(|line: (String, Vec<u8>)| (line.0@, line.1@)) == unframed(
            headers@.map_values(|line: (String, Vec<u8>)| (line.0@, line.1@)),
        ),
{
    lemma_unframed(header_lines(headers@));
    assert(header_lines(headers@) =~= headers@.map_values(
        |line: (String, Vec<u8>)| (line.0@, line.1@),
    ));
    assert(header_lines(forwarded@) =~= forwarded@.map_values(
        |line: (String, Vec<u8>)| (line.0@, line.1@),
    ));
}

/// A call says that its body is JSON, gives the bearer's key where there is one, gives the id of
/// the request, and says nothing else.
pub proof fn law_calls_are_introduced(
    api_key: Option<&str>,
    request_id: &str,
    headers: Vec<(String, String)>,
)
    requires
        call_ensures(call_headers, (api_key, request_id), headers),
    ensures
        introduces(
            headers@.map_values(|line: (String, String)| (line.0@, line.1@)),
            match api_key {
                Some(key) => Some(key@),
                None => None,
            },
            request_id@,
        ),
{
}

/// A status is one of success from 200 to 299, and at no other number.
pub proof fn law_success_is_two_hundred_something(head: &ResponseHead, answer: bool)
    requires
        call_ensures(ResponseHead::is_success, (head,), answer),
    ensures
        head.status < 200 ==> !answer,
        200 <= head.status <= 299 ==> answer,
        head.status >= 300 ==> !answer,
{
}

} // verus!
