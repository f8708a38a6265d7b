//! The commands of the editor. Each one takes the editor's state, does one
//! edit or one query, and hands back what the display needs.

use crate::document::Document;
use crate::editor::{
    lines_view, render, rendered, EditAction, EditResult, EditorState, LineInfo, OpenFileResult,
};
use crate::error::EditError;
use crate::history::{
    clamp, lemma_redo, lemma_undo, lemma_with, lemma_without, live_selection, EditorModel,
};
use crate::search::{find_first, first_occurrence, no_occurrence, occurs_at, replace_chars};
use crate::text::{chars_of, string_of};
use vstd::prelude::*;
use vstd::utf8::{decode_utf8, encode_utf8, valid_utf8};

verus! {

/// Whether `result` carries the cursor position `cursor` and the line
/// projection of `text`.
pub open spec fn reports(result: EditResult, text: Seq<char>, cursor: int) -> bool {
    result.cursor_pos == cursor && lines_view(result.lines@) == rendered(text)
}

/// `pos`, or `len` where `pos` lies past it.
fn clamp_to(pos: usize, len: usize) -> (clamped: usize)
    ensures
        clamped == clamp(pos as int, len as nat),
{
    if pos < len {
        pos
    } else {
        len
    }
}

/// The range a selection covers in a document of `len` characters, where it
/// covers any.
fn live_range(selection: Option<(usize, usize)>, len: usize) -> (range: Option<(usize, usize)>)
    ensures
        range is Some <==> live_selection(selection, len as nat) is Some,
        range is Some ==> range->Some_0.0 == live_selection(selection, len as nat)->Some_0.0
            && range->Some_0.1 == live_selection(selection, len as nat)->Some_0.1,
{
    match selection {
        Some((start, end)) => {
            let from: usize = clamp_to(start, len);
            let to: usize = clamp_to(end, len);
            if from < to {
                Some((from, to))
            } else {
                None
            }
        },
        None => None,
    }
}

/// The result of an edit that left the cursor at `cursor`.
fn outcome(state: &EditorState, cursor: usize) -> (result: EditResult)
    ensures
        reports(result, state@.text, cursor as int),
{
    EditResult { lines: render(&state.document), cursor_pos: cursor }
}

/// Empties the redo stack.
fn touch(state: &mut EditorState)
    requires
        old(state).wf(),
    ensures
        final(state)@ == old(state)@.touched(),
        final(state).wf(),
{
    state.redo_stack.clear();
    assert(state@.redo =~= Seq::empty());
}

/// Removes the characters at `start` up to `end` and records the removal.
fn take_out(state: &mut EditorState, start: usize, end: usize)
    requires
        old(state).wf(),
        start <= end <= old(state)@.text.len(),
    ensures
        final(state)@ == old(state)@.without(start as int, end as int),
        final(state).wf(),
{
    let removed: String = state.document.slice(start, end).unwrap();
    state.document.remove(start, end).unwrap();
    state.undo_stack.push(EditAction::Insert { pos: start, text: removed });
    state.redo_stack.clear();
    proof {
        let next = old(state)@.without(start as int, end as int);
        lemma_without(old(state)@, start as int, end as int);
        assert(state@.undo =~= next.undo);
        assert(state@.redo =~= next.redo);
    }
}

/// Inserts `text` before index `pos` and records the insertion. Hands back the
/// index behind the inserted text.
fn put_in(state: &mut EditorState, pos: usize, text: String) -> (cursor: usize)
    requires
        old(state).wf(),
        pos <= old(state)@.text.len(),
    ensures
        final(state)@ == old(state)@.with(pos as int, text@),
        final(state).wf(),
        cursor == pos + text@.len(),
{
    let before: usize = state.document.len_chars();
    state.document.insert(pos, text.as_str()).unwrap();
    let after: usize = state.document.len_chars();
    state.undo_stack.push(EditAction::Delete { pos, text });
    state.redo_stack.clear();
    proof {
        let next = old(state)@.with(pos as int, text@);
        lemma_with(old(state)@, pos as int, text@);
        assert(state@.undo =~= next.undo);
        assert(state@.redo =~= next.redo);
    }
    pos + (after - before)
}

/// Inserts `ch` before index `pos` and records the insertion.
fn put_char_in(state: &mut EditorState, pos: usize, ch: char) -> (cursor: usize)
    requires
        old(state).wf(),
        pos <= old(state)@.text.len(),
    ensures
        final(state)@ == old(state)@.with(pos as int, seq![ch]),
        final(state).wf(),
        cursor == pos + 1,
{
    let before: usize = state.document.len_chars();
    state.document.insert_char(pos, ch).unwrap();
    let after: usize = state.document.len_chars();
    let mut chars: Vec<char> = Vec::new();
    chars.push(ch);
    let text: String = string_of(chars.as_slice());
    assert(text@ =~= seq![ch]);
    state.undo_stack.push(EditAction::Delete { pos, text });
    state.redo_stack.clear();
    proof {
        let next = old(state)@.with(pos as int, seq![ch]);
        lemma_with(old(state)@, pos as int, seq![ch]);
        assert(state@.undo =~= next.undo);
        assert(state@.redo =~= next.redo);
    }
    pos + (after - before)
}

/// Applies `action` to the document. Hands back the record that reverses it,
/// with the text that was in fact put in or taken away, and where the cursor
/// stands.
fn apply_record(doc: &mut Document, action: EditAction) -> (done: (EditAction, usize))
    requires
        action@.applies_to(old(doc)@),
    ensures
        final(doc)@ == action@.apply(old(doc)@),
        done.0@ == action@.inverse(),
        done.1 == action@.cursor(),
{
    match action {
        EditAction::Insert { pos, text } => {
            let before: usize = doc.len_chars();
            doc.insert(pos, text.as_str()).unwrap();
            let after: usize = doc.len_chars();
            (EditAction::Delete { pos, text }, pos + (after - before))
        },
        EditAction::Delete { pos, text } => {
            let count: usize = text.as_str().unicode_len();
            // The record fits the document, so its end is no larger than
            // the document's length, which is a `usize`.
            let _len: usize = doc.len_chars();
            let end: usize = pos + count;
            let removed: String = doc.slice(pos, end).unwrap();
            doc.remove(pos, end).unwrap();
            (EditAction::Insert { pos, text: removed }, pos)
        },
    }
}

/// Starts a new, empty document: the text, both stacks and the file path are
/// reset.
pub fn new_file(state: &mut EditorState) -> (r: Result<Vec<LineInfo>, EditError>)
    ensures
        final(state)@ == EditorModel::empty(),
        final(state).wf(),
        r is Ok,
        lines_view(r->Ok_0@) == rendered(Seq::<char>::empty()),
{
    state.document = Document::new();
    state.current_path = None;
    state.undo_stack.clear();
    state.redo_stack.clear();
    assert(state@.undo =~= Seq::empty());
    assert(state@.redo =~= Seq::empty());
    Ok(render(&state.document))
}

/// Opens the file at `path`, whose content is `bytes`. Valid UTF-8 becomes
/// the document, with an empty history; anything else is refused with
/// `IoError` and leaves the editor as it was.
pub fn open_file(path: String, bytes: &[u8], state: &mut EditorState) -> (r: Result<
    OpenFileResult,
    EditError,
>)
    ensures
        valid_utf8(bytes@) ==> {
            &&& r is Ok
            &&& final(state)@ == EditorModel::opened(path@, decode_utf8(bytes@))
            &&& final(state).wf()
            &&& r->Ok_0.path@ == path@
            &&& lines_view(r->Ok_0.lines@) == rendered(decode_utf8(bytes@))
        },
        !valid_utf8(bytes@) ==> r is Err && r->Err_0 == EditError::IoError && final(state)@ == old(
            state,
        )@,
{
    match Document::from_bytes(bytes) {
        Ok(document) => {
            state.document = document;
            state.current_path = Some(path.clone());
            state.undo_stack.clear();
            state.redo_stack.clear();
            assert(state@.undo =~= Seq::empty());
            assert(state@.redo =~= Seq::empty());
            Ok(OpenFileResult { lines: render(&state.document), path })
        },
        Err(e) => Err(e),
    }
}

/// The bytes to write when the document is saved: its text in UTF-8.
pub fn save_file(state: &EditorState) -> (r: Result<Vec<u8>, EditError>)
    ensures
        r is Ok,
        r->Ok_0@ == encode_utf8(state@.text),
{
    Ok(state.document.to_bytes())
}

/// Notes that the document was written to the file at `path`. The text and
/// the history stay as they are.
pub fn file_saved(path: String, state: &mut EditorState)
    ensures
        final(state)@ == (EditorModel { path: Some(path@), ..old(state)@ }),
        old(state).wf() ==> final(state).wf(),
{
    state.current_path = Some(path);
}

/// The line projection of the document.
pub fn get_rendered_text(state: &EditorState) -> (r: Result<Vec<LineInfo>, EditError>)
    ensures
        r is Ok,
        lines_view(r->Ok_0@) == rendered(state@.text),
{
    Ok(state.get_rendered_text())
}

/// Makes room for an insertion: removes a live selection, with its record,
/// and hands back the index at which the new text goes in. That is the start
/// of the live selection; without one it is `pos`, and `None` where `pos` lies
/// past the end.
fn insertion_point(pos: usize, selection: Option<(usize, usize)>, state: &mut EditorState) -> (point:
    Option<usize>)
    requires
        old(state).wf(),
    ensures
        final(state).wf(),
        match live_selection(selection, old(state)@.text.len()) {
            Some((start, end)) => point is Some && point->Some_0 == start && final(state)@
                == old(state)@.without(start, end),
            None => final(state)@ == old(state)@ && if pos <= old(state)@.text.len() {
                point == Some(pos)
            } else {
                point is None
            },
        },
        point is Some ==> point->Some_0 <= final(state)@.text.len(),
{
    let len: usize = state.document.len_chars();
    match live_range(selection, len) {
        Some((start, end)) => {
            take_out(state, start, end);
            Some(start)
        },
        None => {
            if pos <= len {
                Some(pos)
            } else {
                None
            }
        },
    }
}

/// Inserts the character `ch` at `pos`, or in place of a live selection. The
/// cursor ends behind it. Without a live selection a `pos` past the end is
/// refused with `OutOfRange`, and nothing changes.
pub fn insert_char(
    pos: usize,
    ch: char,
    selection: Option<(usize, usize)>,
    state: &mut EditorState,
) -> (r: Result<EditResult, EditError>)
    requires
        old(state).wf(),
    ensures
        final(state).wf(),
        match old(state)@.insert(pos as int, seq![ch], selection) {
            Some((next, cursor)) => r is Ok && final(state)@ == next && reports(
                r->Ok_0,
                next.text,
                cursor,
            ),
            None => r is Err && r->Err_0 == EditError::OutOfRange && final(state)@ == old(state)@,
        },
{
    match insertion_point(pos, selection, state) {
        Some(point) => {
            let cursor: usize = put_char_in(state, point, ch);
            Ok(outcome(state, cursor))
        },
        None => Err(EditError::OutOfRange),
    }
}

/// Inserts a line feed at `pos`, or in place of a live selection: the same as
/// `insert_char` with the character `'\n'`.
pub fn insert_newline(pos: usize, selection: Option<(usize, usize)>, state: &mut EditorState) -> (r:
    Result<EditResult, EditError>)
    requires
        old(state).wf(),
    ensures
        final(state).wf(),
        match old(state)@.insert(pos as int, seq!['\n'], selection) {
            Some((next, cursor)) => r is Ok && final(state)@ == next && reports(
                r->Ok_0,
                next.text,
                cursor,
            ),
            None => r is Err && r->Err_0 == EditError::OutOfRange && final(state)@ == old(state)@,
        },
{
    insert_char(pos, '\n', selection, state)
}

/// Deletes the selection, or without one the character before `pos`. Never
/// fails: a range is clamped to the document, and a `pos` of 0 or past the end
/// deletes nothing. The redo stack is emptied in every case.
pub fn delete_char(pos: usize, selection: Option<(usize, usize)>, state: &mut EditorState) -> (r:
    Result<EditResult, EditError>)
    requires
        old(state).wf(),
    ensures
        final(state).wf(),
        r is Ok,
        final(state)@ == old(state)@.delete(pos as int, selection).0,
        reports(r->Ok_0, final(state)@.text, old(state)@.delete(pos as int, selection).1),
{
    let len: usize = state.document.len_chars();
    let cursor: usize;
    match selection {
        Some((start, end)) => {
            let from: usize = clamp_to(start, len);
            let to: usize = clamp_to(end, len);
            if from < to {
                take_out(state, from, to);
            } else {
                touch(state);
            }
            cursor = from;
        },
        None => {
            if pos == 0 {
                touch(state);
                cursor = 0;
            } else if pos > len {
                touch(state);
                cursor = len;
            } else {
                take_out(state, pos - 1, pos);
                cursor = pos - 1;
            }
        },
    }
    Ok(outcome(state, cursor))
}

/// Pops the last undo record, applies it, and pushes its inverse onto the
/// redo stack. Fails with `NothingToUndo`, and changes nothing, exactly when
/// the undo stack is empty.
pub fn undo(state: &mut EditorState) -> (r: Result<EditResult, EditError>)
    requires
        old(state).wf(),
    ensures
        final(state).wf(),
        match old(state)@.undo() {
            Some((next, cursor)) => r is Ok && final(state)@ == next && reports(
                r->Ok_0,
                next.text,
                cursor,
            ),
            None => r is Err && r->Err_0 == EditError::NothingToUndo && final(state)@ == old(
                state,
            )@,
        },
{
    match state.undo_stack.pop() {
        Some(action) => {
            assert(action@ == old(state)@.undo.last());
            let (inverse, cursor) = apply_record(&mut state.document, action);
            state.redo_stack.push(inverse);
            proof {
                let next = old(state)@.undo()->Some_0.0;
                lemma_undo(old(state)@);
                assert(state@.undo =~= next.undo);
                assert(state@.redo =~= next.redo);
            }
            Ok(outcome(state, cursor))
        },
        None => Err(EditError::NothingToUndo),
    }
}

/// Pops the last redo record, applies it, and pushes its inverse back onto the
/// undo stack. Fails with `NothingToRedo`, and changes nothing, exactly when
/// the redo stack is empty.
pub fn redo(state: &mut EditorState) -> (r: Result<EditResult, EditError>)
    requires
        old(state).wf(),
    ensures
        final(state).wf(),
        match old(state)@.redo() {
            Some((next, cursor)) => r is Ok && final(state)@ == next && reports(
                r->Ok_0,
                next.text,
                cursor,
            ),
            None => r is Err && r->Err_0 == EditError::NothingToRedo && final(state)@ == old(
                state,
            )@,
        },
{
    match state.redo_stack.pop() {
        Some(action) => {
            assert(action@ == old(state)@.redo.last());
            let (inverse, cursor) = apply_record(&mut state.document, action);
            state.undo_stack.push(inverse);
            proof {
                let next = old(state)@.redo()->Some_0.0;
                lemma_redo(old(state)@);
                assert(state@.undo =~= next.undo);
                assert(state@.redo =~= next.redo);
            }
            Ok(outcome(state, cursor))
        },
        None => Err(EditError::NothingToRedo),
    }
}

/// The text to put on the clipboard for the range `start` up to `end`, both
/// ends clamped to the document. Changes nothing.
pub fn copy_text(start: usize, end: usize, state: &EditorState) -> (r: Result<String, EditError>)
    ensures
        r is Ok,
        r->Ok_0@ == state@.copy(start as int, end as int),
{
    let len: usize = state.document.len_chars();
    let from: usize = clamp_to(start, len);
    let to: usize = clamp_to(end, len);
    if from < to {
        Ok(state.document.slice(from, to).unwrap())
    } else {
        Ok(String::new())
    }
}

/// Removes the range `start` up to `end`, both ends clamped to the document,
/// and leaves the cursor at its start. An empty range removes nothing. The
/// redo stack is emptied in either case. The text that goes is the text that
/// `copy_text` hands out for the same range.
pub fn cut_text(start: usize, end: usize, state: &mut EditorState) -> (r: Result<
    EditResult,
    EditError,
>)
    requires
        old(state).wf(),
    ensures
        final(state).wf(),
        r is Ok,
        final(state)@ == old(state)@.cut(start as int, end as int).0,
        reports(r->Ok_0, final(state)@.text, old(state)@.cut(start as int, end as int).1),
{
    let len: usize = state.document.len_chars();
    let from: usize = clamp_to(start, len);
    let to: usize = clamp_to(end, len);
    if from < to {
        take_out(state, from, to);
    } else {
        touch(state);
    }
    Ok(outcome(state, from))
}

/// Inserts what was read from the clipboard at `pos`, or in place of a live
/// selection; the cursor ends behind it. `clipboard` is `None` where the
/// clipboard could not be read: the command then fails with `ClipboardError`
/// and changes nothing. Without a live selection a `pos` past the end is
/// refused with `OutOfRange`.
pub fn paste_text(
    pos: usize,
    selection: Option<(usize, usize)>,
    clipboard: Option<String>,
    state: &mut EditorState,
) -> (r: Result<EditResult, EditError>)
    requires
        old(state).wf(),
    ensures
        final(state).wf(),
        match clipboard {
            Some(text) => match old(state)@.insert(pos as int, text@, selection) {
                Some((next, cursor)) => r is Ok && final(state)@ == next && reports(
                    r->Ok_0,
                    next.text,
                    cursor,
                ),
                None => r is Err && r->Err_0 == EditError::OutOfRange && final(state)@ == old(
                    state,
                )@,
            },
            None => r is Err && r->Err_0 == EditError::ClipboardError && final(state)@ == old(
                state,
            )@,
        },
{
    match clipboard {
        Some(text) => match insertion_point(pos, selection, state) {
            Some(point) => {
                let cursor: usize = put_in(state, point, text);
                Ok(outcome(state, cursor))
            },
            None => Err(EditError::OutOfRange),
        },
        None => Err(EditError::ClipboardError),
    }
}

/// The first occurrence of `query` at or after index `from`, as the range of
/// its characters; `None` where there is none.
pub fn find_next(query: String, from: usize, state: &EditorState) -> (r: Result<
    Option<(usize, usize)>,
    EditError,
>)
    ensures
        r is Ok,
        r->Ok_0 is Some ==> first_occurrence(
            state@.text,
            query@,
            from as int,
            r->Ok_0->Some_0.0 as int,
        ) && r->Ok_0->Some_0.1 == r->Ok_0->Some_0.0 + query@.len(),
        r->Ok_0 is None ==> no_occurrence(state@.text, query@, from as int),
{
    let len: usize = state.document.len_chars();
    if from > len {
        return Ok(None);
    }
    let tail: String = state.document.slice(from, len).unwrap();
    let hay: Vec<char> = chars_of(tail.as_str());
    let needle: Vec<char> = chars_of(query.as_str());
    let found: Option<usize> = find_first(hay.as_slice(), needle.as_slice(), 0);
    proof {
        assert forall|i: int| 0 <= i implies occurs_at(hay@, needle@, i) == occurs_at(
            state@.text,
            query@,
            from + i,
        ) by {
            if i + needle@.len() <= hay@.len() {
                assert(hay@.subrange(i, i + needle@.len()) =~= state@.text.subrange(
                    from + i,
                    from + i + needle@.len(),
                ));
            }
        }
    }
    match found {
        Some(at) => {
            assert forall|i: int| from <= i < from + at implies !occurs_at(
                state@.text,
                query@,
                i,
            ) by {
                assert(!occurs_at(hay@, needle@, i - from));
            }
            Ok(Some((from + at, from + at + needle.len())))
        },
        None => {
            assert forall|i: int| from <= i implies !occurs_at(state@.text, query@, i) by {
                assert(!occurs_at(hay@, needle@, i - from));
            }
            Ok(None)
        },
    }
}

/// Replaces the range `start` up to `end` by `replace_with` and leaves the
/// cursor behind it. The range is clamped to the document; a reversed range
/// counts as the empty range at its start. Two records are pushed, so one undo
/// takes back the insertion and a second one restores the replaced text.
pub fn replace_next(start: usize, end: usize, replace_with: String, state: &mut EditorState) -> (r:
    Result<EditResult, EditError>)
    requires
        old(state).wf(),
    ensures
        final(state).wf(),
        r is Ok,
        final(state)@ == old(state)@.replace_range(start as int, end as int, replace_with@).0,
        reports(
            r->Ok_0,
            final(state)@.text,
            old(state)@.replace_range(start as int, end as int, replace_with@).1,
        ),
{
    let len: usize = state.document.len_chars();
    let from: usize = clamp_to(start, len);
    let clamped_end: usize = clamp_to(end, len);
    let to: usize = if clamped_end < from {
        from
    } else {
        clamped_end
    };
    take_out(state, from, to);
    let cursor: usize = put_in(state, from, replace_with);
    Ok(outcome(state, cursor))
}

/// Replaces every occurrence of `query` by `replace_with`, from left to right
/// and without overlap, as one replacement of the whole document. Two records
/// are pushed, as for `replace_next`. The cursor ends at 0.
pub fn replace_all(query: String, replace_with: String, state: &mut EditorState) -> (r: Result<
    EditResult,
    EditError,
>)
    requires
        old(state).wf(),
    ensures
        final(state).wf(),
        r is Ok,
        final(state)@ == old(state)@.replace_all(query@, replace_with@).0,
        reports(r->Ok_0, final(state)@.text, 0),
{
    let full: String = state.document.text();
    let text: Vec<char> = chars_of(full.as_str());
    let needle: Vec<char> = chars_of(query.as_str());
    let with: Vec<char> = chars_of(replace_with.as_str());
    let new_chars: Vec<char> = replace_chars(text.as_slice(), needle.as_slice(), with.as_slice());
    let new_text: String = string_of(new_chars.as_slice());
    let len: usize = state.document.len_chars();
    take_out(state, 0, len);
    let _: usize = put_in(state, 0, new_text);
    Ok(outcome(state, 0))
}

} // verus!
