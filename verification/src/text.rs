//! Text as sequences of characters: search, removal, comparison and decimal numerals.
use vstd::prelude::*;
use vstd::string::StringExecFns;

verus! {

/// `String::push`: one character more at the end.
pub assume_specification[ String::push ](text: &mut String, c: char)
    ensures
        final(text)@ == old(text)@.push(c),
;

/// Whether `pattern` stands in `text` at `at`.
pub open spec fn occurs_at(text: Seq<char>, pattern: Seq<char>, at: int) -> bool {
    &&& 0 <= at <= text.len() - pattern.len()
    &&& text.subrange(at, at + pattern.len()) == pattern
}

/// Whether `pattern` stands anywhere in `text`.
pub open spec fn occurs(text: Seq<char>, pattern: Seq<char>) -> bool {
    exists|at: int| occurs_at(text, pattern, at)
}

/// `text` without the occurrences of `pattern`, taken from the left and not overlapping.
pub open spec fn erased(text: Seq<char>, pattern: Seq<char>) -> Seq<char>
    decreases text.len(),
{
    if pattern.len() == 0 || text.len() < pattern.len() {
        text
    } else if occurs_at(text, pattern, 0) {
        erased(text.skip(pattern.len() as int), pattern)
    } else {
        seq![text[0]] + erased(text.skip(1), pattern)
    }
}

/// The characters of a text, in order.
pub fn chars(text: &str) -> (all: Vec<char>)
    ensures
        all@ == text@,
{
    let mut all: Vec<char> = Vec::new();
    for c in it: text.chars()
        invariant
            all@ == it.seq().take(it.index()),
            it.seq() == text@,
    {
        all.push(c);
    }
    all
}

/// Whether `pattern` stands in `text` at `at`.
fn matches_at(text: &Vec<char>, pattern: &Vec<char>, at: usize) -> (found: bool)
    requires
        at <= text.len(),
    ensures
        found == occurs_at(text@, pattern@, at as int),
{
    if text.len() - at < pattern.len() {
        return false;
    }
    let mut i: usize = 0;
    while i < pattern.len()
        invariant
            at + pattern.len() <= text.len(),
            i <= pattern.len(),
            forall|j: int| 0 <= j < i ==> text[at + j] == pattern[j],
        decreases pattern.len() - i,
    {
        if text[at + i] != pattern[i] {
            proof {
                assert(text@.subrange(at as int, at + pattern.len())[i as int] != pattern@[i as int]);
            }
            return false;
        }
        i += 1;
    }
    assert(text@.subrange(at as int, at + pattern.len()) =~= pattern@);
    true
}

/// Whether `pattern` stands anywhere in `text`.
pub fn contains(text: &str, pattern: &str) -> (found: bool)
    ensures
        found == occurs(text@, pattern@),
{
    let all = chars(text);
    let wanted = chars(pattern);
    let mut at: usize = 0;
    loop
        invariant
            all@ == text@,
            wanted@ == pattern@,
            at <= all.len(),
            forall|i: int| 0 <= i < at ==> !occurs_at(text@, pattern@, i),
        decreases all.len() - at,
    {
        if matches_at(&all, &wanted, at) {
            return true;
        }
        if at == all.len() {
            return false;
        }
        at += 1;
    }
}

/// Whether `text` begins with `prefix`.
pub fn starts_with(text: &str, prefix: &str) -> (found: bool)
    ensures
        found == occurs_at(text@, prefix@, 0),
{
    matches_at(&chars(text), &chars(prefix), 0)
}

/// `text` without the occurrences of `pattern`, taken from the left and not overlapping.
pub fn erase(text: &str, pattern: &str) -> (rest: String)
    requires
        pattern@.len() > 0,
    ensures
        rest@ == erased(text@, pattern@),
{
    let all = chars(text);
    let unwanted = chars(pattern);
    let mut rest = String::new();
    let mut at: usize = 0;
    assert(text@.skip(0) =~= text@);
    while at < all.len()
        invariant
            all@ == text@,
            unwanted@ == pattern@,
            pattern@.len() > 0,
            at <= all.len(),
            rest@ + erased(text@.skip(at as int), pattern@) == erased(text@, pattern@),
        decreases all.len() - at,
    {
        let ghost tail = text@.skip(at as int);
        proof {
            lemma_occurs_at_skip(text@, pattern@, at as int);
        }
        if matches_at(&all, &unwanted, at) {
            assert(tail.skip(pattern@.len() as int) =~= text@.skip(at + pattern@.len()));
            at += unwanted.len();
        } else {
            let ghost before = rest@;
            rest.push(all[at]);
            proof {
                assert(tail.skip(1) =~= text@.skip(at + 1));
                if tail.len() < pattern@.len() {
                    assert(tail =~= seq![tail[0]] + tail.skip(1));
                }
                assert(rest@ + erased(tail.skip(1), pattern@) =~= before + (seq![tail[0]] + erased(
                    tail.skip(1),
                    pattern@,
                )));
            }
            at += 1;
        }
    }
    assert(text@.skip(at as int) =~= Seq::empty());
    assert(rest@ + erased(text@.skip(at as int), pattern@) =~= rest@);
    rest
}

/// An occurrence at the start of a tail is an occurrence in the whole text.
proof fn lemma_occurs_at_skip(text: Seq<char>, pattern: Seq<char>, at: int)
    requires
        0 <= at <= text.len(),
    ensures
        occurs_at(text, pattern, at) == occurs_at(text.skip(at), pattern, 0),
{
    if at + pattern.len() <= text.len() {
        assert(text.skip(at).subrange(0, pattern.len() as int) =~= text.subrange(
            at,
            at + pattern.len(),
        ));
    }
}

/// A text in which the pattern does not stand is left as it is.
pub proof fn lemma_erased_absent(text: Seq<char>, pattern: Seq<char>)
    requires
        !occurs(text, pattern),
    ensures
        erased(text, pattern) == text,
    decreases text.len(),
{
    if pattern.len() > 0 && text.len() >= pattern.len() {
        assert(!occurs_at(text, pattern, 0));
        assert forall|at: int| !occurs_at(text.skip(1), pattern, at) by {
            if occurs_at(text.skip(1), pattern, at) {
                assert(text.subrange(at + 1, at + 1 + pattern.len()) =~= text.skip(1).subrange(
                    at,
                    at + pattern.len(),
                ));
                assert(occurs_at(text, pattern, at + 1));
            }
        }
        lemma_erased_absent(text.skip(1), pattern);
        assert(text =~= seq![text[0]] + text.skip(1));
    }
}

/// A pattern that the text begins with goes, and the rest is looked through on its own.
pub proof fn lemma_erased_prefix(pattern: Seq<char>, rest: Seq<char>)
    requires
        pattern.len() > 0,
    ensures
        erased(pattern + rest, pattern) == erased(rest, pattern),
{
    let text = pattern + rest;
    assert(text.subrange(0, pattern.len() as int) =~= pattern);
    assert(text.skip(pattern.len() as int) =~= rest);
}

/// What stands before the first occurrence of a character is kept, and the character goes.
pub proof fn lemma_erased_before(head: Seq<char>, c: char, rest: Seq<char>)
    requires
        !head.contains(c),
    ensures
        erased(head + seq![c] + rest, seq![c]) == head + erased(rest, seq![c]),
    decreases head.len(),
{
    let text = head + seq![c] + rest;
    if head.len() == 0 {
        assert(text =~= seq![c] + rest);
        lemma_erased_prefix(seq![c], rest);
        assert(head + erased(rest, seq![c]) =~= erased(rest, seq![c]));
    } else {
        assert(text.subrange(0, 1)[0] == head[0]);
        assert(head.contains(head[0]));
        assert(!occurs_at(text, seq![c], 0));
        let tail = head.skip(1);
        assert forall|i: int| 0 <= i < tail.len() implies tail[i] != c by {
            assert(head.contains(head[i + 1]));
        }
        lemma_erased_before(tail, c, rest);
        assert(text.skip(1) =~= tail + seq![c] + rest);
        assert(seq![head[0]] + (tail + erased(rest, seq![c])) =~= head + erased(rest, seq![c]));
    }
}

/// Two texts, one after the other.
pub fn concat(a: &str, b: &str) -> (text: String)
    ensures
        text@ == a@ + b@,
{
    let mut text = a.to_owned();
    text.append(b);
    text
}

/// Four texts, one after the other.
pub fn concat4(a: &str, b: &str, c: &str, d: &str) -> (text: String)
    ensures
        text@ == a@ + b@ + c@ + d@,
{
    let mut text = a.to_owned();
    text.append(b);
    text.append(c);
    text.append(d);
    text
}

/// Whether two texts are the same.
pub fn same(a: &str, b: &str) -> (equal: bool)
    ensures
        equal == (a@ == b@),
{
    let left = a.to_owned();
    let right = b.to_owned();
    left == right
}

/// The character of a decimal digit.
pub open spec fn digit(n: nat) -> char {
    (n + 48) as char
}

/// `n` written in decimal, without leading zeros.
pub open spec fn decimal(n: nat) -> Seq<char>
    decreases n,
{
    if n < 10 {
        seq![digit(n)]
    } else {
        decimal(n / 10).push(digit(n % 10))
    }
}

/// `n` written in decimal, without leading zeros.
pub fn numeral(n: usize) -> (text: String)
    ensures
        text@ == decimal(n as nat),
    decreases n,
{
    let mut text = if n < 10 {
        String::new()
    } else {
        numeral(n / 10)
    };
    let c: char = (48u8 + (n % 10) as u8) as char;
    text.push(c);
    assert(n < 10 ==> text@ =~= seq![digit(n as nat)]);
    text
}

} // verus!
