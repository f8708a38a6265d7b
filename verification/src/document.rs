//! The document buffer: a sequence of characters held in a rope, addressed by
//! character index.

use crate::error::EditError;
use crate::lines::{lemma_line_start, line_count, line_start, line_text};
use crate::rope::{
    rope_char, rope_from_reader, rope_from_str, rope_insert, rope_insert_char, rope_len_chars,
    rope_len_lines, rope_line_to_char, rope_new, rope_remove, rope_slice, rope_text,
    rope_write_to,
};
use vstd::prelude::*;
use vstd::utf8::{decode_utf8, encode_utf8, valid_utf8};

verus! {

/// `doc` with `text` spliced in before index `pos`.
pub open spec fn splice_in(doc: Seq<char>, pos: int, text: Seq<char>) -> Seq<char> {
    doc.subrange(0, pos) + text + doc.subrange(pos, doc.len() as int)
}

/// `doc` without the characters at indices `start` up to `end`.
pub open spec fn cut_out(doc: Seq<char>, start: int, end: int) -> Seq<char> {
    doc.subrange(0, start) + doc.subrange(end, doc.len() as int)
}

/// A text buffer. Its view is the sequence of characters it holds.
pub struct Document {
    rope: ropey::Rope,
}

impl View for Document {
    type V = Seq<char>;

    closed spec fn view(&self) -> Seq<char> {
        rope_text(self.rope)
    }
}

impl Document {
    /// An empty document.
    pub fn new() -> (doc: Document)
        ensures
            doc@ == Seq::<char>::empty(),
    {
        Document { rope: rope_new() }
    }

    /// A document that holds the characters of `text`.
    pub fn from_text(text: &str) -> (doc: Document)
        ensures
            doc@ == text@,
    {
        Document { rope: rope_from_str(text) }
    }

    /// Decodes `bytes` as UTF-8. Fails with `IoError` exactly when they are not
    /// valid UTF-8.
    pub fn from_bytes(bytes: &[u8]) -> (decoded: Result<Document, EditError>)
        ensures
            valid_utf8(bytes@) ==> decoded is Ok && decoded->Ok_0@ == decode_utf8(bytes@),
            !valid_utf8(bytes@) ==> decoded == Err::<Document, EditError>(EditError::IoError),
    {
        match rope_from_reader(bytes) {
            Some(rope) => Ok(Document { rope }),
            None => Err(EditError::IoError),
        }
    }

    /// The document encoded as UTF-8.
    pub fn to_bytes(&self) -> (bytes: Vec<u8>)
        ensures
            bytes@ == encode_utf8(self@),
    {
        rope_write_to(&self.rope)
    }

    /// The number of characters.
    pub fn len_chars(&self) -> (n: usize)
        ensures
            n == self@.len(),
    {
        rope_len_chars(&self.rope)
    }

    /// Inserts `text` before the character at `pos`. Fails with `OutOfRange`,
    /// and changes nothing, exactly when `pos` lies past the end.
    pub fn insert(&mut self, pos: usize, text: &str) -> (done: Result<(), EditError>)
        ensures
            pos <= old(self)@.len() ==> done is Ok && final(self)@ == splice_in(
                old(self)@,
                pos as int,
                text@,
            ),
            pos > old(self)@.len() ==> done == Err::<(), EditError>(EditError::OutOfRange)
                && final(self)@ == old(self)@,
    {
        if pos <= rope_len_chars(&self.rope) {
            rope_insert(&mut self.rope, pos, text);
            Ok(())
        } else {
            Err(EditError::OutOfRange)
        }
    }

    /// Inserts `ch` before the character at `pos`. Fails with `OutOfRange`, and
    /// changes nothing, exactly when `pos` lies past the end.
    pub fn insert_char(&mut self, pos: usize, ch: char) -> (done: Result<(), EditError>)
        ensures
            pos <= old(self)@.len() ==> done is Ok && final(self)@ == splice_in(
                old(self)@,
                pos as int,
                seq![ch],
            ),
            pos > old(self)@.len() ==> done == Err::<(), EditError>(EditError::OutOfRange)
                && final(self)@ == old(self)@,
    {
        if pos <= rope_len_chars(&self.rope) {
            rope_insert_char(&mut self.rope, pos, ch);
            assert(old(self)@.subrange(0, pos as int).push(ch) =~= old(self)@.subrange(
                0,
                pos as int,
            ) + seq![ch]);
            Ok(())
        } else {
            Err(EditError::OutOfRange)
        }
    }

    /// Removes the characters at indices `start` up to `end`. Fails with
    /// `OutOfRange`, and changes nothing, exactly when the range is reversed or
    /// ends past the document.
    pub fn remove(&mut self, start: usize, end: usize) -> (done: Result<(), EditError>)
        ensures
            start <= end <= old(self)@.len() ==> done is Ok && final(self)@ == cut_out(
                old(self)@,
                start as int,
                end as int,
            ),
            !(start <= end <= old(self)@.len()) ==> done == Err::<(), EditError>(
                EditError::OutOfRange,
            ) && final(self)@ == old(self)@,
    {
        if start <= end && end <= rope_len_chars(&self.rope) {
            rope_remove(&mut self.rope, start, end);
            Ok(())
        } else {
            Err(EditError::OutOfRange)
        }
    }

    /// The characters at indices `start` up to `end`. Fails with `OutOfRange`
    /// exactly when the range is reversed or ends past the document.
    pub fn slice(&self, start: usize, end: usize) -> (text: Result<String, EditError>)
        ensures
            start <= end <= self@.len() ==> text is Ok && text->Ok_0@ == self@.subrange(
                start as int,
                end as int,
            ),
            !(start <= end <= self@.len()) ==> text == Err::<String, EditError>(
                EditError::OutOfRange,
            ),
    {
        if start <= end && end <= rope_len_chars(&self.rope) {
            Ok(rope_slice(&self.rope, start, end))
        } else {
            Err(EditError::OutOfRange)
        }
    }

    /// The whole text.
    pub fn text(&self) -> (text: String)
        ensures
            text@ == self@,
    {
        let n: usize = rope_len_chars(&self.rope);
        let text = rope_slice(&self.rope, 0, n);
        assert(self@.subrange(0, n as int) =~= self@);
        text
    }

    /// The character at `pos`. Fails with `OutOfRange` exactly when `pos` is
    /// not the index of a character.
    pub fn char_at(&self, pos: usize) -> (ch: Result<char, EditError>)
        ensures
            pos < self@.len() ==> ch == Ok::<char, EditError>(self@[pos as int]),
            pos >= self@.len() ==> ch == Err::<char, EditError>(EditError::OutOfRange),
    {
        if pos < rope_len_chars(&self.rope) {
            Ok(rope_char(&self.rope, pos))
        } else {
            Err(EditError::OutOfRange)
        }
    }

    /// The number of lines. An empty document has one line, which is empty.
    pub fn line_count(&self) -> (n: usize)
        ensures
            n == line_count(self@),
    {
        rope_len_lines(&self.rope)
    }

    /// The index of the first character of line `line`; for the index one past
    /// the last line, the length of the document. Fails with `OutOfRange`
    /// exactly when `line` is larger than that.
    pub fn line_to_char(&self, line: usize) -> (pos: Result<usize, EditError>)
        ensures
            line <= line_count(self@) ==> pos is Ok && pos->Ok_0 == line_start(
                self@,
                line as nat,
            ),
            line > line_count(self@) ==> pos == Err::<usize, EditError>(EditError::OutOfRange),
    {
        if line <= rope_len_lines(&self.rope) {
            proof {
                lemma_line_start(self@, line as nat);
            }
            Ok(rope_line_to_char(&self.rope, line))
        } else {
            Err(EditError::OutOfRange)
        }
    }

    /// The characters of line `line`, its line break included. Fails with
    /// `OutOfRange` exactly when there is no such line.
    pub fn line(&self, line: usize) -> (text: Result<String, EditError>)
        ensures
            line < line_count(self@) ==> text is Ok && text->Ok_0@ == line_text(
                self@,
                line as nat,
            ),
            line >= line_count(self@) ==> text == Err::<String, EditError>(
                EditError::OutOfRange,
            ),
    {
        if line < rope_len_lines(&self.rope) {
            proof {
                lemma_line_start(self@, line as nat);
            }
            let start: usize = rope_line_to_char(&self.rope, line);
            let end: usize = rope_line_to_char(&self.rope, line + 1);
            Ok(rope_slice(&self.rope, start, end))
        } else {
            Err(EditError::OutOfRange)
        }
    }
}

} // verus!
