//! Laws on texts.
use crate::laws::requests::{lemma_stands_at, lemma_stands_in};
use crate::laws::words::{stands_at, stands_in};
use crate::text::{
    chars, concat, concat4, contains, decimal, erase, erased, lemma_erased_absent, numeral,
    occurs_at, same, starts_with,
};
use vstd::prelude::*;

verus! {

/// To erase a character is to keep the others.
pub proof fn lemma_erased_character(text: Seq<char>, c: char)
    ensures
        erased(text, seq![c]) == text.filter(|d: char| d != c),
    decreases text.len(),
{
    let keep = |d: char| d != c;
    if text.len() == 0 {
        reveal(Seq::filter);
    } else {
        let first = seq![text[0]];
        let rest = text.skip(1);
        lemma_erased_character(rest, c);
        assert(text =~= first + rest);
        Seq::filter_distributes_over_add(first, rest, keep);
        assert(first.filter(keep) =~= if keep(text[0]) {
            first
        } else {
            seq![]
        }) by {
            reveal_with_fuel(Seq::filter, 2);
            assert(first.drop_last() =~= seq![]);
        }
        assert(text.subrange(0, 1) =~= first);
        if text[0] == c {
            assert(text.subrange(0, 1) =~= seq![c]);
            assert(seq![] + rest.filter(keep) =~= rest.filter(keep));
        } else {
            assert(text.subrange(0, 1)[0] != seq![c][0]);
        }
    }
}

/// What stands before the first occurrence of a pattern is kept, the occurrence goes, and the rest
/// is looked through on its own.
proof fn lemma_erased_first(head: Seq<char>, pattern: Seq<char>, rest: Seq<char>)
    requires
        pattern.len() > 0,
        forall|at: int| 0 <= at < head.len() ==> !occurs_at(head + pattern + rest, pattern, at),
    ensures
        erased(head + pattern + rest, pattern) == head + erased(rest, pattern),
    decreases head.len(),
{
    let text = head + pattern + rest;
    if head.len() == 0 {
        assert(text.subrange(0, pattern.len() as int) =~= pattern);
        assert(text.skip(pattern.len() as int) =~= rest);
        assert(head + erased(rest, pattern) =~= erased(rest, pattern));
    } else {
        let tail = head.skip(1);
        let shorter = tail + pattern + rest;
        assert(text.skip(1) =~= shorter);
        assert(!occurs_at(text, pattern, 0));
        assert forall|at: int| 0 <= at < tail.len() implies !occurs_at(shorter, pattern, at) by {
            if occurs_at(shorter, pattern, at) {
                assert(text.subrange(at + 1, at + 1 + pattern.len()) =~= shorter.subrange(
                    at,
                    at + pattern.len(),
                ));
                assert(occurs_at(text, pattern, at + 1));
            }
        }
        lemma_erased_first(tail, pattern, rest);
        assert(seq![text[0]] + (tail + erased(rest, pattern)) =~= head + erased(rest, pattern));
    }
}

/// To erase a pattern that does not stand in a text changes nothing. To erase one that does takes
/// its first occurrence out, keeps what stands before it, and goes on with what stands behind it.
pub proof fn law_erasing_goes_from_the_left(
    text: &str,
    pattern: &str,
    left: String,
    head: Seq<char>,
    rest: &str,
    right: String,
)
    requires
        pattern@.len() > 0,
        call_ensures(erase, (text, pattern), left),
        call_ensures(erase, (rest, pattern), right),
    ensures
        !stands_in(text@, pattern@) ==> left@ == text@,
        text@ == head + pattern@ + rest@ && (forall|at: int|
            0 <= at < head.len() ==> !#[trigger] stands_at(text@, pattern@, at)) ==> left@ == head
            + right@,
{
    lemma_stands_in(text@, pattern@);
    if !stands_in(text@, pattern@) {
        lemma_erased_absent(text@, pattern@);
    }
    if text@ == head + pattern@ + rest@ && (forall|at: int|
        0 <= at < head.len() ==> !#[trigger] stands_at(text@, pattern@, at)) {
        assert forall|at: int| 0 <= at < head.len() implies !occurs_at(
            head + pattern@ + rest@,
            pattern@,
            at,
        ) by {
            lemma_stands_at(text@, pattern@, at);
        }
        lemma_erased_first(head, pattern@, rest@);
    }
}

/// A text is found in another where its characters stand there in a row, and at the start where
/// they stand there.
pub proof fn law_texts_are_found(text: &str, part: &str, found: bool, leads: bool)
    requires
        call_ensures(contains, (text, part), found),
        call_ensures(starts_with, (text, part), leads),
    ensures
        found <==> stands_in(text@, part@),
        leads <==> part@.len() <= text@.len() && text@.take(part@.len() as int) == part@,
        leads ==> found,
{
    lemma_stands_in(text@, part@);
    if part@.len() <= text@.len() {
        assert(text@.take(part@.len() as int) =~= text@.subrange(0, part@.len() as int));
    }
    if leads {
        assert(occurs_at(text@, part@, 0));
    }
}

/// Texts that are put together are one after the other, and two texts are the same where they have
/// the same characters in the same order.
pub proof fn law_texts_are_put_together(
    a: &str,
    b: &str,
    c: &str,
    d: &str,
    two: String,
    four: String,
    equal: bool,
    all: Vec<char>,
)
    requires
        call_ensures(concat, (a, b), two),
        call_ensures(concat4, (a, b, c, d), four),
        call_ensures(same, (a, b), equal),
        call_ensures(chars, (a,), all),
    ensures
        two@ == a@ + b@,
        four@ == two@ + c@ + d@,
        equal <==> a@.len() == b@.len() && forall|i: int| 0 <= i < a@.len() ==> a@[i] == b@[i],
        all@ == a@,
{
    if a@.len() == b@.len() && forall|i: int| 0 <= i < a@.len() ==> a@[i] == b@[i] {
        assert(a@ =~= b@);
    }
}

/// The number that decimal digits stand for.
pub open spec fn value_of(digits: Seq<char>) -> int
    decreases digits.len(),
{
    if digits.len() == 0 {
        0
    } else {
        value_of(digits.drop_last()) * 10 + (digits.last() as int - '0' as int)
    }
}

/// The decimal digits of a number stand for it.
pub proof fn lemma_decimal(n: nat)
    ensures
        value_of(decimal(n)) == n,
        decimal(n).len() > 0,
        forall|i: int|
            0 <= i < decimal(n).len() ==> '0' <= #[trigger] decimal(n)[i] && decimal(n)[i] <= '9',
        n > 0 ==> decimal(n)[0] != '0',
        n == 0 ==> decimal(n).len() == 1,
    decreases n,
{
    reveal_with_fuel(value_of, 2);
    if n < 10 {
        assert(decimal(n).drop_last() =~= seq![]);
    } else {
        lemma_decimal(n / 10);
        assert(decimal(n).drop_last() =~= decimal(n / 10));
        assert(decimal(n)[0] == decimal(n / 10)[0]);
    }
}

/// A numeral is made of decimal digits that stand for its number, without leading zeros.
pub proof fn law_numerals_stand_for_their_numbers(n: usize, text: String)
    requires
        call_ensures(numeral, (n,), text),
    ensures
        value_of(text@) == n,
        text@.len() > 0,
        forall|i: int| 0 <= i < text@.len() ==> '0' <= #[trigger] text@[i] && text@[i] <= '9',
        text@[0] == '0' ==> text@.len() == 1,
{
    lemma_decimal(n as nat);
}

} // verus!
