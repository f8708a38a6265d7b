//! Finding and replacing a substring, on sequences of characters.

use vstd::prelude::*;

verus! {

/// Whether `needle` stands in `text` at index `at`.
pub open spec fn occurs_at(text: Seq<char>, needle: Seq<char>, at: int) -> bool {
    0 <= at && at + needle.len() <= text.len() && text.subrange(at, at + needle.len()) == needle
}

/// Whether `at` is the first index from `from` on at which `needle` stands in
/// `text`.
pub open spec fn first_occurrence(text: Seq<char>, needle: Seq<char>, from: int, at: int) -> bool {
    &&& from <= at
    &&& occurs_at(text, needle, at)
    &&& forall|i: int| from <= i < at ==> !occurs_at(text, needle, i)
}

/// Whether `needle` stands nowhere in `text` from index `from` on.
pub open spec fn no_occurrence(text: Seq<char>, needle: Seq<char>, from: int) -> bool {
    forall|i: int| from <= i ==> !occurs_at(text, needle, i)
}

/// `text` with every occurrence of `query` replaced by `with`, taking the
/// occurrences from left to right and never one that overlaps the one before.
/// The empty query occurs before every character and at the end.
pub open spec fn replaced(text: Seq<char>, query: Seq<char>, with: Seq<char>) -> Seq<char>
    decreases text.len(),
{
    if query.len() == 0 {
        if text.len() == 0 {
            with
        } else {
            with + seq![text[0]] + replaced(text.skip(1), query, with)
        }
    } else if occurs_at(text, query, 0) {
        with + replaced(text.skip(query.len() as int), query, with)
    } else if text.len() == 0 {
        text
    } else {
        seq![text[0]] + replaced(text.skip(1), query, with)
    }
}

/// Whether `needle` stands in `text` at index `at`.
pub fn matches_at(text: &[char], needle: &[char], at: usize) -> (found: bool)
    ensures
        found == occurs_at(text@, needle@, at as int),
{
    if at > text.len() || needle.len() > text.len() - at {
        return false;
    }
    let mut k: usize = 0;
    while k < needle.len()
        invariant
            k <= needle@.len(),
            at + needle@.len() <= text@.len() <= usize::MAX,
            text@.subrange(at as int, at + k) == needle@.subrange(0, k as int),
        decreases needle.len() - k,
    {
        if text[at + k] != needle[k] {
            assert(text@.subrange(at as int, at + needle@.len())[k as int] != needle@[k as int]);
            return false;
        }
        assert(text@.subrange(at as int, at + k + 1) =~= text@.subrange(at as int, at + k).push(
            text@[at + k],
        ));
        assert(needle@.subrange(0, k + 1) =~= needle@.subrange(0, k as int).push(needle@[k as int]));
        k += 1;
    }
    assert(needle@.subrange(0, k as int) =~= needle@);
    true
}

/// The first index from `from` on at which `needle` stands in `text`.
pub fn find_first(text: &[char], needle: &[char], from: usize) -> (found: Option<usize>)
    ensures
        found is Some ==> first_occurrence(text@, needle@, from as int, found->Some_0 as int),
        found is None ==> no_occurrence(text@, needle@, from as int),
{
    if from > text.len() || needle.len() > text.len() - from {
        return None;
    }
    let last: usize = text.len() - needle.len();
    let mut at: usize = from;
    loop
        invariant
            from <= at <= last,
            last + needle@.len() == text@.len(),
            forall|i: int| from <= i < at ==> !occurs_at(text@, needle@, i),
        decreases last - at,
    {
        if matches_at(text, needle, at) {
            return Some(at);
        }
        if at == last {
            return None;
        }
        at += 1;
    }
}

/// Appends the characters of `extra` to `out`.
fn append_chars(out: &mut Vec<char>, extra: &[char])
    ensures
        final(out)@ == old(out)@ + extra@,
{
    let mut k: usize = 0;
    while k < extra.len()
        invariant
            k <= extra@.len(),
            out@ == old(out)@ + extra@.subrange(0, k as int),
        decreases extra.len() - k,
    {
        out.push(extra[k]);
        assert(extra@.subrange(0, k + 1) =~= extra@.subrange(0, k as int).push(extra@[k as int]));
        k += 1;
    }
    assert(extra@.subrange(0, k as int) =~= extra@);
}

/// `text` with every occurrence of `query` replaced by `with`.
pub fn replace_chars(text: &[char], query: &[char], with: &[char]) -> (out: Vec<char>)
    ensures
        out@ == replaced(text@, query@, with@),
{
    let mut out: Vec<char> = Vec::new();
    let mut at: usize = 0;
    assert(text@.skip(0) =~= text@);
    while at < text.len()
        invariant
            at <= text@.len(),
            replaced(text@, query@, with@) == out@ + replaced(
                text@.skip(at as int),
                query@,
                with@,
            ),
        decreases text.len() - at,
    {
        let rest = Ghost(text@.skip(at as int));
        assert(rest@.len() > 0 && rest@[0] == text@[at as int]);
        assert(occurs_at(rest@, query@, 0) == occurs_at(text@, query@, at as int)) by {
            if at + query@.len() <= text@.len() {
                assert(rest@.subrange(0, query@.len() as int) =~= text@.subrange(
                    at as int,
                    at + query@.len(),
                ));
            }
        }
        if query.len() == 0 {
            append_chars(&mut out, with);
            out.push(text[at]);
            assert(rest@.skip(1) =~= text@.skip(at + 1));
            at += 1;
        } else if matches_at(text, query, at) {
            append_chars(&mut out, with);
            assert(rest@.skip(query@.len() as int) =~= text@.skip(at + query@.len()));
            at += query.len();
        } else {
            out.push(text[at]);
            assert(rest@.skip(1) =~= text@.skip(at + 1));
            at += 1;
        }
    }
    if query.len() == 0 {
        append_chars(&mut out, with);
    }
    out
}

} // verus!
