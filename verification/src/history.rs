//! The mathematical model of the editor: a text, the two stacks of edit
//! records beside it, and what each command makes of them.
//!
//! A record on either stack says what popping it does to the text. `Insert`
//! puts its text back in at its position; `Delete` takes the text away that
//! stands at its position. The record pushed for an edit is the one that
//! reverses it.

use crate::document::{cut_out, splice_in};
use crate::search::replaced;
use vstd::prelude::*;

verus! {

/// An edit record, as contracts see it.
pub enum Action {
    /// Put `text` in before index `pos`.
    Insert { pos: nat, text: Seq<char> },
    /// Take away `text`, which stands at index `pos`.
    Delete { pos: nat, text: Seq<char> },
}

impl Action {
    /// The index the record speaks of.
    pub open spec fn pos(self) -> int {
        match self {
            Action::Insert { pos, text } => pos as int,
            Action::Delete { pos, text } => pos as int,
        }
    }

    /// The text the record carries.
    pub open spec fn text(self) -> Seq<char> {
        match self {
            Action::Insert { pos, text } => text,
            Action::Delete { pos, text } => text,
        }
    }

    /// The index behind the text, where the text stands at `pos`.
    pub open spec fn end(self) -> int {
        self.pos() + self.text().len()
    }

    /// Whether the record fits `doc`: an insertion point lies inside it, and
    /// the text to take away is the text that stands there.
    pub open spec fn applies_to(self, doc: Seq<char>) -> bool {
        match self {
            Action::Insert { pos, text } => pos <= doc.len(),
            Action::Delete { pos, text } => self.end() <= doc.len() && doc.subrange(
                self.pos(),
                self.end(),
            ) == text,
        }
    }

    /// `doc` after the record has been applied.
    pub open spec fn apply(self, doc: Seq<char>) -> Seq<char> {
        match self {
            Action::Insert { pos, text } => splice_in(doc, self.pos(), text),
            Action::Delete { pos, text } => cut_out(doc, self.pos(), self.end()),
        }
    }

    /// The record that reverses this one.
    pub open spec fn inverse(self) -> Action {
        match self {
            Action::Insert { pos, text } => Action::Delete { pos, text },
            Action::Delete { pos, text } => Action::Insert { pos, text },
        }
    }

    /// Where the cursor stands after the record has been applied: behind the
    /// text put in, or where text was taken away.
    pub open spec fn cursor(self) -> int {
        match self {
            Action::Insert { pos, text } => self.end(),
            Action::Delete { pos, text } => self.pos(),
        }
    }
}

/// Whether the records of `stack` can be popped and applied to `doc` one
/// after the other, the last one first.
pub open spec fn unwinds(doc: Seq<char>, stack: Seq<Action>) -> bool
    decreases stack.len(),
{
    stack.len() == 0 || (stack.last().applies_to(doc) && unwinds(
        stack.last().apply(doc),
        stack.drop_last(),
    ))
}

/// The text that is left when all of `stack` has been popped and applied to
/// `doc`.
pub open spec fn unwound(doc: Seq<char>, stack: Seq<Action>) -> Seq<char>
    decreases stack.len(),
{
    if stack.len() == 0 {
        doc
    } else {
        unwound(stack.last().apply(doc), stack.drop_last())
    }
}

/// The text that results when the edits recorded in `stack` are made again on
/// `base`, the oldest first. Each record reverses its edit, so the edit is the
/// inverse of the record.
pub open spec fn replay(base: Seq<char>, stack: Seq<Action>) -> Seq<char>
    decreases stack.len(),
{
    if stack.len() == 0 {
        base
    } else {
        stack.last().inverse().apply(replay(base, stack.drop_last()))
    }
}

/// `pos`, or the length `len` where `pos` lies past it.
pub open spec fn clamp(pos: int, len: nat) -> int {
    if pos < len {
        pos
    } else {
        len as int
    }
}

/// The range that a selection covers in a text of `len` characters, both ends
/// clamped to the text; `None` where nothing is selected or the clamped range
/// is empty.
pub open spec fn live_selection(selection: Option<(usize, usize)>, len: nat) -> Option<
    (int, int),
> {
    match selection {
        Some((start, end)) => if clamp(start as int, len) < clamp(end as int, len) {
            Some((clamp(start as int, len), clamp(end as int, len)))
        } else {
            None
        },
        None => None,
    }
}

/// The state of the editor, as contracts see it.
pub struct EditorModel {
    /// The document.
    pub text: Seq<char>,
    /// The records that undo pops, the most recent edit last.
    pub undo: Seq<Action>,
    /// The records that redo pops, the most recent undo last.
    pub redo: Seq<Action>,
    /// The file the document belongs to.
    pub path: Option<Seq<char>>,
}

impl EditorModel {
    /// Both stacks fit the document: every record can be popped and applied
    /// in its turn.
    pub open spec fn wf(self) -> bool {
        unwinds(self.text, self.undo) && unwinds(self.text, self.redo)
    }

    /// The document as it was before the first edit still on the undo stack.
    pub open spec fn base(self) -> Seq<char> {
        unwound(self.text, self.undo)
    }

    /// A fresh editor: no text, no history, no file.
    pub open spec fn empty() -> EditorModel {
        EditorModel { text: Seq::empty(), undo: Seq::empty(), redo: Seq::empty(), path: None }
    }

    /// The editor after the file at `path` with the content `text` was opened.
    pub open spec fn opened(path: Seq<char>, text: Seq<char>) -> EditorModel {
        EditorModel { text, undo: Seq::empty(), redo: Seq::empty(), path: Some(path) }
    }

    /// The editor after the characters at `start` up to `end` were removed:
    /// the record that puts them back is pushed, and the redo stack is empty.
    pub open spec fn without(self, start: int, end: int) -> EditorModel {
        EditorModel {
            text: cut_out(self.text, start, end),
            undo: self.undo.push(
                Action::Insert { pos: start as nat, text: self.text.subrange(start, end) },
            ),
            redo: Seq::empty(),
            path: self.path,
        }
    }

    /// The editor after `text` was put in before index `pos`: the record that
    /// takes it away is pushed, and the redo stack is empty.
    pub open spec fn with(self, pos: int, text: Seq<char>) -> EditorModel {
        EditorModel {
            text: splice_in(self.text, pos, text),
            undo: self.undo.push(Action::Delete { pos: pos as nat, text }),
            redo: Seq::empty(),
            path: self.path,
        }
    }

    /// The editor with an empty redo stack and nothing else changed.
    pub open spec fn touched(self) -> EditorModel {
        EditorModel { redo: Seq::empty(), ..self }
    }

    /// Inserting `text` at `pos`, or in place of a live selection. With a live
    /// selection the selected text goes first and `text` lands where it
    /// began; the cursor ends behind `text`. Without one, a `pos` past the end
    /// is refused (`None`).
    pub open spec fn insert(
        self,
        pos: int,
        text: Seq<char>,
        selection: Option<(usize, usize)>,
    ) -> Option<(EditorModel, int)> {
        match live_selection(selection, self.text.len()) {
            Some((start, end)) => Some(
                (self.without(start, end).with(start, text), start + text.len()),
            ),
            None => if 0 <= pos <= self.text.len() {
                Some((self.with(pos, text), pos + text.len()))
            } else {
                None
            },
        }
    }

    /// Deleting. With a selection, its clamped range goes and the cursor ends
    /// at its start. Without one, the character before `pos` goes and the
    /// cursor ends at its place; at `pos == 0` nothing goes, and neither where
    /// `pos` lies past the end, which leaves the cursor at the end. The redo
    /// stack is emptied in every case.
    pub open spec fn delete(self, pos: int, selection: Option<(usize, usize)>) -> (
        EditorModel,
        int,
    ) {
        match selection {
            Some((start, end)) => self.cut(start as int, end as int),
            None => if 0 < pos <= self.text.len() {
                (self.without(pos - 1, pos), pos - 1)
            } else if pos <= 0 {
                (self.touched(), 0)
            } else {
                (self.touched(), self.text.len() as int)
            },
        }
    }

    /// Cutting the range `start` up to `end`, both ends clamped to the text.
    /// An empty range only empties the redo stack. The cursor ends at the
    /// clamped start.
    pub open spec fn cut(self, start: int, end: int) -> (EditorModel, int) {
        let from = clamp(start, self.text.len());
        let to = clamp(end, self.text.len());
        if from < to {
            (self.without(from, to), from)
        } else {
            (self.touched(), from)
        }
    }

    /// The text in the range `start` up to `end`, both ends clamped to the
    /// text; empty where the clamped range is.
    pub open spec fn copy(self, start: int, end: int) -> Seq<char> {
        let from = clamp(start, self.text.len());
        let to = clamp(end, self.text.len());
        if from < to {
            self.text.subrange(from, to)
        } else {
            Seq::empty()
        }
    }

    /// Popping the last undo record: it is applied to the text and its inverse
    /// goes onto the redo stack. `None` where there is nothing to undo.
    pub open spec fn undo(self) -> Option<(EditorModel, int)> {
        if self.undo.len() == 0 {
            None
        } else {
            let action = self.undo.last();
            Some(
                (
                    EditorModel {
                        text: action.apply(self.text),
                        undo: self.undo.drop_last(),
                        redo: self.redo.push(action.inverse()),
                        path: self.path,
                    },
                    action.cursor(),
                ),
            )
        }
    }

    /// Popping the last redo record: it is applied to the text and its inverse
    /// goes back onto the undo stack. `None` where there is nothing to redo.
    pub open spec fn redo(self) -> Option<(EditorModel, int)> {
        if self.redo.len() == 0 {
            None
        } else {
            let action = self.redo.last();
            Some(
                (
                    EditorModel {
                        text: action.apply(self.text),
                        undo: self.undo.push(action.inverse()),
                        redo: self.redo.drop_last(),
                        path: self.path,
                    },
                    action.cursor(),
                ),
            )
        }
    }

    /// Replacing the range `start` up to `end` by `text`. The ends are clamped
    /// to the document, and a reversed range counts as the empty range at its
    /// start. Two records are pushed, one for the removal and one for the
    /// insertion, so one undo takes back the insertion only. The cursor ends
    /// behind `text`.
    pub open spec fn replace_range(self, start: int, end: int, text: Seq<char>) -> (
        EditorModel,
        int,
    ) {
        let from = clamp(start, self.text.len());
        let to = if clamp(end, self.text.len()) < from {
            from
        } else {
            clamp(end, self.text.len())
        };
        (self.without(from, to).with(from, text), from + text.len())
    }

    /// Replacing every occurrence of `query` by `text`, as one replacement of
    /// the whole document. The cursor ends at 0.
    pub open spec fn replace_all(self, query: Seq<char>, text: Seq<char>) -> (EditorModel, int) {
        (
            self.without(0, self.text.len() as int).with(0, replaced(self.text, query, text)),
            0,
        )
    }
}

/// Applying a record and then its inverse gives the text back.
pub proof fn lemma_apply_inverse(action: Action, doc: Seq<char>)
    requires
        action.applies_to(doc),
    ensures
        action.inverse().applies_to(action.apply(doc)),
        action.inverse().apply(action.apply(doc)) == doc,
        action.inverse().inverse() == action,
{
    match action {
        Action::Insert { pos, text } => {
            let after = splice_in(doc, action.pos(), text);
            assert(after.subrange(action.pos(), action.end()) =~= text);
            assert(cut_out(after, action.pos(), action.end()) =~= doc);
        },
        Action::Delete { pos, text } => {
            let after = cut_out(doc, action.pos(), action.end());
            assert(splice_in(after, action.pos(), text) =~= doc);
        },
    }
}

/// Removing a range of a well-formed editor leaves it well-formed, with the
/// same base.
pub proof fn lemma_without(m: EditorModel, start: int, end: int)
    requires
        m.wf(),
        0 <= start <= end <= m.text.len(),
    ensures
        m.without(start, end).wf(),
        m.without(start, end).base() == m.base(),
{
    let next = m.without(start, end);
    let record = Action::Insert { pos: start as nat, text: m.text.subrange(start, end) };
    assert(record.apply(next.text) =~= m.text);
    assert(next.undo.last() == record);
    assert(next.undo.drop_last() =~= m.undo);
}

/// Inserting into a well-formed editor leaves it well-formed, with the same
/// base.
pub proof fn lemma_with(m: EditorModel, pos: int, text: Seq<char>)
    requires
        m.wf(),
        0 <= pos <= m.text.len(),
    ensures
        m.with(pos, text).wf(),
        m.with(pos, text).base() == m.base(),
{
    let next = m.with(pos, text);
    let record = Action::Delete { pos: pos as nat, text };
    assert(next.text.subrange(pos, pos + text.len()) =~= text);
    assert(record.apply(next.text) =~= m.text);
    assert(next.undo.last() == record);
    assert(next.undo.drop_last() =~= m.undo);
}

/// Emptying the redo stack of a well-formed editor leaves it well-formed,
/// with the same base.
pub proof fn lemma_touched(m: EditorModel)
    requires
        m.wf(),
    ensures
        m.touched().wf(),
        m.touched().base() == m.base(),
{
}

/// Undo leaves a well-formed editor well-formed, with the same base.
pub proof fn lemma_undo(m: EditorModel)
    requires
        m.wf(),
        m.undo.len() > 0,
    ensures
        m.undo()->Some_0.0.wf(),
        m.undo()->Some_0.0.base() == m.base(),
{
    let action = m.undo.last();
    let next = m.undo()->Some_0.0;
    lemma_apply_inverse(action, m.text);
    assert(next.redo.last() == action.inverse());
    assert(next.redo.drop_last() =~= m.redo);
}

/// Redo leaves a well-formed editor well-formed, with the same base.
pub proof fn lemma_redo(m: EditorModel)
    requires
        m.wf(),
        m.redo.len() > 0,
    ensures
        m.redo()->Some_0.0.wf(),
        m.redo()->Some_0.0.base() == m.base(),
{
    let action = m.redo.last();
    let next = m.redo()->Some_0.0;
    lemma_apply_inverse(action, m.text);
    assert(next.undo.last() == action.inverse());
    assert(next.undo.drop_last() =~= m.undo);
}

} // verus!
