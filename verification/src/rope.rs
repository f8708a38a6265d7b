//! The boundary to the `ropey` crate.
//!
//! Everything in this module is trusted: each contract restates what `ropey`
//! documents for the call in the body, and Verus takes it on faith. The rest of
//! the crate reaches a rope only through these functions.

use crate::lines::{line_count, line_start};
use vstd::prelude::*;
use vstd::utf8::{decode_utf8, encode_utf8, valid_utf8};

verus! {

#[verifier::external_type_specification]
#[verifier::external_body]
pub struct ExRope(ropey::Rope);

/// The characters a rope holds, in order.
pub uninterp spec fn rope_text(rope: ropey::Rope) -> Seq<char>;

/// `Rope::new`: a rope that holds no text.
#[verifier::external_body]
pub(crate) fn rope_new() -> (rope: ropey::Rope)
    ensures
        rope_text(rope) == Seq::<char>::empty(),
{
    ropey::Rope::new()
}

/// `Rope::from_str`: a rope that holds exactly the characters of `text`.
#[verifier::external_body]
pub(crate) fn rope_from_str(text: &str) -> (rope: ropey::Rope)
    ensures
        rope_text(rope) == text@,
{
    ropey::Rope::from_str(text)
}

/// `Rope::from_reader`, reading from a byte slice. A slice never fails to
/// read, so the only error left is the one `ropey` reports for input that is
/// not UTF-8; on valid input the rope holds the decoded characters.
#[verifier::external_body]
pub(crate) fn rope_from_reader(bytes: &[u8]) -> (decoded: Option<ropey::Rope>)
    ensures
        decoded is Some <==> valid_utf8(bytes@),
        decoded is Some ==> rope_text(decoded->Some_0) == decode_utf8(bytes@),
{
    ropey::Rope::from_reader(bytes).ok()
}

/// `Rope::write_to`, writing into a fresh byte vector. A vector never fails to
/// take bytes, so the result is the whole text in UTF-8.
#[verifier::external_body]
pub(crate) fn rope_write_to(rope: &ropey::Rope) -> (bytes: Vec<u8>)
    ensures
        bytes@ == encode_utf8(rope_text(*rope)),
{
    let mut bytes = Vec::new();
    let _ = rope.write_to(&mut bytes);
    bytes
}

/// `Rope::len_chars`: the number of characters held.
#[verifier::external_body]
pub(crate) fn rope_len_chars(rope: &ropey::Rope) -> (n: usize)
    ensures
        n == rope_text(*rope).len(),
{
    rope.len_chars()
}

/// `Rope::insert`: splices `text` in before the character at `char_idx`.
/// The call panics when `char_idx` lies past the end; `requires` rules that out.
#[verifier::external_body]
pub(crate) fn rope_insert(rope: &mut ropey::Rope, char_idx: usize, text: &str)
    requires
        char_idx <= rope_text(*old(rope)).len(),
    ensures
        rope_text(*final(rope)) == rope_text(*old(rope)).subrange(0, char_idx as int) + text@
            + rope_text(*old(rope)).subrange(char_idx as int, rope_text(*old(rope)).len() as int),
{
    rope.insert(char_idx, text)
}

/// `Rope::insert_char`: splices the single character `ch` in before the
/// character at `char_idx`. Panics past the end, like `Rope::insert`.
#[verifier::external_body]
pub(crate) fn rope_insert_char(rope: &mut ropey::Rope, char_idx: usize, ch: char)
    requires
        char_idx <= rope_text(*old(rope)).len(),
    ensures
        rope_text(*final(rope)) == rope_text(*old(rope)).subrange(0, char_idx as int).push(ch)
            + rope_text(*old(rope)).subrange(char_idx as int, rope_text(*old(rope)).len() as int),
{
    rope.insert_char(char_idx, ch)
}

/// `Rope::remove` on the range `start..end`: drops those characters and keeps
/// the rest in order. The call panics on a reversed range or one that ends past
/// the text; `requires` rules both out.
#[verifier::external_body]
pub(crate) fn rope_remove(rope: &mut ropey::Rope, start: usize, end: usize)
    requires
        start <= end <= rope_text(*old(rope)).len(),
    ensures
        rope_text(*final(rope)) == rope_text(*old(rope)).subrange(0, start as int) + rope_text(
            *old(rope),
        ).subrange(end as int, rope_text(*old(rope)).len() as int),
{
    rope.remove(start..end)
}

/// `Rope::slice` on the range `start..end`, copied out as a `String`: the
/// characters at those indices. Panics like `Rope::remove` on a bad range.
#[verifier::external_body]
pub(crate) fn rope_slice(rope: &ropey::Rope, start: usize, end: usize) -> (text: String)
    requires
        start <= end <= rope_text(*rope).len(),
    ensures
        text@ == rope_text(*rope).subrange(start as int, end as int),
{
    String::from(rope.slice(start..end))
}

/// `Rope::char`: the character at `char_idx`. Panics at or past the end.
#[verifier::external_body]
pub(crate) fn rope_char(rope: &ropey::Rope, char_idx: usize) -> (ch: char)
    requires
        char_idx < rope_text(*rope).len(),
    ensures
        ch == rope_text(*rope)[char_idx as int],
{
    rope.char(char_idx)
}

/// `Rope::len_lines`: one more than the number of line breaks in the text, with
/// the line breaks `ropey` recognises when built with its default features.
#[verifier::external_body]
pub(crate) fn rope_len_lines(rope: &ropey::Rope) -> (n: usize)
    ensures
        n == line_count(rope_text(*rope)),
{
    rope.len_lines()
}

/// `Rope::line_to_char`: the index of the first character of line `line_idx`;
/// for the index one past the last line, the length of the text. Panics for
/// any larger index.
#[verifier::external_body]
pub(crate) fn rope_line_to_char(rope: &ropey::Rope, line_idx: usize) -> (char_idx: usize)
    requires
        line_idx <= line_count(rope_text(*rope)),
    ensures
        char_idx == line_start(rope_text(*rope), line_idx as nat),
{
    rope.line_to_char(line_idx)
}

} // verus!
