//! What holds of the editor whatever is done with it: the laws of its
//! history, stated over the model and proved.

use crate::editor::rendered;
use crate::history::{
    clamp, lemma_apply_inverse, lemma_redo, lemma_touched, lemma_undo, lemma_with, lemma_without,
    live_selection, replay, unwinds, unwound, Action, EditorModel,
};
use crate::lines::{lemma_line_start, lemma_lines_tile, line_count};
use crate::search::replaced;
use vstd::prelude::*;

verus! {

/// One command, with its arguments. Each variant stands for the function of
/// the same name among the commands, and `outcome` is what that function
/// makes of the state it is given.
pub enum Command {
    InsertChar { pos: usize, ch: char, selection: Option<(usize, usize)> },
    InsertNewline { pos: usize, selection: Option<(usize, usize)> },
    DeleteChar { pos: usize, selection: Option<(usize, usize)> },
    Cut { start: usize, end: usize },
    /// `clipboard` is what was read from the clipboard, `None` where reading
    /// failed.
    Paste { pos: usize, selection: Option<(usize, usize)>, clipboard: Option<Seq<char>> },
    ReplaceNext { start: usize, end: usize, text: Seq<char> },
    ReplaceAll { query: Seq<char>, text: Seq<char> },
    Undo,
    Redo,
}

/// What `command` makes of the editor `m`: the next state and the cursor
/// position, or `None` where the command fails and leaves `m` as it is.
pub open spec fn outcome(m: EditorModel, command: Command) -> Option<(EditorModel, int)> {
    match command {
        Command::InsertChar { pos, ch, selection } => m.insert(pos as int, seq![ch], selection),
        Command::InsertNewline { pos, selection } => m.insert(pos as int, seq!['\n'], selection),
        Command::DeleteChar { pos, selection } => Some(m.delete(pos as int, selection)),
        Command::Cut { start, end } => Some(m.cut(start as int, end as int)),
        Command::Paste { pos, selection, clipboard } => match clipboard {
            Some(text) => m.insert(pos as int, text, selection),
            None => None,
        },
        Command::ReplaceNext { start, end, text } => Some(
            m.replace_range(start as int, end as int, text),
        ),
        Command::ReplaceAll { query, text } => Some(m.replace_all(query, text)),
        Command::Undo => m.undo(),
        Command::Redo => m.redo(),
    }
}

/// The editor after `command`.
pub open spec fn step(m: EditorModel, command: Command) -> EditorModel {
    match outcome(m, command) {
        Some((next, cursor)) => next,
        None => m,
    }
}

/// The editor after the commands of `commands`, the first one first.
pub open spec fn run(m: EditorModel, commands: Seq<Command>) -> EditorModel
    decreases commands.len(),
{
    if commands.len() == 0 {
        m
    } else {
        step(run(m, commands.drop_last()), commands.last())
    }
}

/// Inserting, with or without a selection, keeps the editor well-formed and
/// its base the same.
proof fn lemma_insert(m: EditorModel, pos: int, text: Seq<char>, selection: Option<(usize, usize)>)
    requires
        m.wf(),
        m.insert(pos, text, selection) is Some,
    ensures
        m.insert(pos, text, selection)->Some_0.0.wf(),
        m.insert(pos, text, selection)->Some_0.0.base() == m.base(),
{
    match live_selection(selection, m.text.len()) {
        Some((start, end)) => {
            lemma_without(m, start, end);
            lemma_with(m.without(start, end), start, text);
        },
        None => {
            lemma_with(m, pos, text);
        },
    }
}

/// Cutting keeps the editor well-formed and its base the same.
proof fn lemma_cut(m: EditorModel, start: int, end: int)
    requires
        m.wf(),
        0 <= start,
        0 <= end,
    ensures
        m.cut(start, end).0.wf(),
        m.cut(start, end).0.base() == m.base(),
{
    let from = clamp(start, m.text.len());
    let to = clamp(end, m.text.len());
    if from < to {
        lemma_without(m, from, to);
    } else {
        lemma_touched(m);
    }
}

/// Every command keeps a well-formed editor well-formed, and keeps its base:
/// the document that is left when the whole undo stack is unwound.
pub proof fn lemma_step_keeps_history(m: EditorModel, command: Command)
    requires
        m.wf(),
    ensures
        step(m, command).wf(),
        step(m, command).base() == m.base(),
{
    match command {
        Command::InsertChar { pos, ch, selection } => {
            if outcome(m, command) is Some {
                lemma_insert(m, pos as int, seq![ch], selection);
            }
        },
        Command::InsertNewline { pos, selection } => {
            if outcome(m, command) is Some {
                lemma_insert(m, pos as int, seq!['\n'], selection);
            }
        },
        Command::DeleteChar { pos, selection } => {
            match selection {
                Some((start, end)) => {
                    lemma_cut(m, start as int, end as int);
                },
                None => {
                    if 0 < pos <= m.text.len() {
                        lemma_without(m, pos - 1, pos as int);
                    } else {
                        lemma_touched(m);
                    }
                },
            }
        },
        Command::Cut { start, end } => {
            lemma_cut(m, start as int, end as int);
        },
        Command::Paste { pos, selection, clipboard } => {
            if outcome(m, command) is Some {
                lemma_insert(m, pos as int, clipboard->Some_0, selection);
            }
        },
        Command::ReplaceNext { start, end, text } => {
            let from = clamp(start as int, m.text.len());
            let to = if clamp(end as int, m.text.len()) < from {
                from
            } else {
                clamp(end as int, m.text.len())
            };
            lemma_without(m, from, to);
            lemma_with(m.without(from, to), from, text);
        },
        Command::ReplaceAll { query, text } => {
            lemma_without(m, 0, m.text.len() as int);
            lemma_with(m.without(0, m.text.len() as int), 0, replaced(m.text, query, text));
        },
        Command::Undo => {
            if m.undo.len() > 0 {
                lemma_undo(m);
            }
        },
        Command::Redo => {
            if m.redo.len() > 0 {
                lemma_redo(m);
            }
        },
    }
}

/// Any sequence of commands keeps a well-formed editor well-formed, and keeps
/// its base.
pub proof fn lemma_run_keeps_history(m: EditorModel, commands: Seq<Command>)
    requires
        m.wf(),
    ensures
        run(m, commands).wf(),
        run(m, commands).base() == m.base(),
    decreases commands.len(),
{
    if commands.len() > 0 {
        lemma_run_keeps_history(m, commands.drop_last());
        lemma_step_keeps_history(run(m, commands.drop_last()), commands.last());
    }
}

/// Where a stack fits a document, making its edits again on what is left when
/// the stack is unwound gives the document back.
pub proof fn lemma_replay_unwound(doc: Seq<char>, stack: Seq<Action>)
    requires
        unwinds(doc, stack),
    ensures
        replay(unwound(doc, stack), stack) == doc,
    decreases stack.len(),
{
    if stack.len() > 0 {
        let before = stack.last().apply(doc);
        lemma_replay_unwound(before, stack.drop_last());
        lemma_apply_inverse(stack.last(), doc);
    }
}

/// Round trip of the history. After any sequence of commands on a
/// well-formed editor, replaying the undo stack from bottom to top on the
/// editor's base reproduces the current document exactly.
pub proof fn law_replay_reproduces_document(m: EditorModel, commands: Seq<Command>)
    requires
        m.wf(),
    ensures
        replay(m.base(), run(m, commands).undo) == run(m, commands).text,
{
    lemma_run_keeps_history(m, commands);
    lemma_replay_unwound(run(m, commands).text, run(m, commands).undo);
}

/// Round trip from a fresh editor. After any sequence of commands on an
/// editor that started empty, replaying the undo stack from bottom to top on
/// the empty document reproduces the current document exactly.
pub proof fn law_replay_from_empty(commands: Seq<Command>)
    ensures
        replay(Seq::empty(), run(EditorModel::empty(), commands).undo) == run(
            EditorModel::empty(),
            commands,
        ).text,
{
    law_replay_reproduces_document(EditorModel::empty(), commands);
}

/// Undo directly followed by redo changes nothing: the document and both
/// stacks are what they were. The cursor ends where applying the inverse of
/// the undone record leaves it.
pub proof fn law_undo_then_redo(m: EditorModel)
    requires
        m.wf(),
        m.undo.len() > 0,
    ensures
        m.undo() is Some,
        m.undo()->Some_0.0.redo() == Some((m, m.undo.last().inverse().cursor())),
{
    let action = m.undo.last();
    let undone = m.undo()->Some_0.0;
    lemma_apply_inverse(action, m.text);
    let redone = undone.redo()->Some_0.0;
    assert(redone.text == m.text);
    assert(redone.undo =~= m.undo);
    assert(redone.redo =~= m.redo);
}

/// Where a command has recorded an edit, undo directly followed by redo
/// gives back the state the command left, and the cursor where the command
/// left it. Replacing all occurrences is left out unless the replaced
/// document is empty: it leaves the cursor at 0, and redo leaves it behind the
/// text.
pub proof fn law_undo_then_redo_keeps_cursor(m: EditorModel, command: Command)
    requires
        m.wf(),
        outcome(m, command) is Some,
        step(m, command).undo.len() > m.undo.len(),
        command matches Command::ReplaceAll { query, text } ==> replaced(m.text, query, text).len()
            == 0,
    ensures
        step(m, command).undo() is Some,
        step(m, command).undo()->Some_0.0.redo() == outcome(m, command),
{
    lemma_step_keeps_history(m, command);
    law_undo_then_redo(step(m, command));
}

/// Deleting at position 0 without a selection changes neither the document
/// nor the undo stack and leaves the cursor at 0. It empties the redo stack,
/// as every edit does; where that stack was empty, nothing changes at all.
pub proof fn law_delete_at_start(m: EditorModel)
    ensures
        m.delete(0, None).0.text == m.text,
        m.delete(0, None).0.undo == m.undo,
        m.delete(0, None).0.redo == Seq::<Action>::empty(),
        m.delete(0, None).0.path == m.path,
        m.delete(0, None).1 == 0,
        m.redo.len() == 0 ==> m.delete(0, None).0 == m,
{
    if m.redo.len() == 0 {
        assert(m.redo =~= Seq::empty());
    }
}

/// Inserting with a live selection gives the state, and the cursor, of
/// deleting the selection and then inserting at its start.
pub proof fn law_selection_replace(
    m: EditorModel,
    pos: int,
    text: Seq<char>,
    selection: (usize, usize),
    other_pos: int,
)
    requires
        live_selection(Some(selection), m.text.len()) is Some,
    ensures
        m.insert(pos, text, Some(selection)) == m.delete(other_pos, Some(selection)).0.insert(
            clamp(selection.0 as int, m.text.len()),
            text,
            None,
        ),
{
}

/// One undo takes back an insertion that replaced no selection: the document
/// and the undo stack are what they were, and the cursor is back at the
/// insertion point.
pub proof fn law_undo_restores_insert(
    m: EditorModel,
    pos: int,
    text: Seq<char>,
    selection: Option<(usize, usize)>,
)
    requires
        m.wf(),
        live_selection(selection, m.text.len()) is None,
        0 <= pos <= m.text.len(),
    ensures
        m.insert(pos, text, selection) is Some,
        m.insert(pos, text, selection)->Some_0.0.undo() is Some,
        m.insert(pos, text, selection)->Some_0.0.undo()->Some_0.0.text == m.text,
        m.insert(pos, text, selection)->Some_0.0.undo()->Some_0.0.undo == m.undo,
        m.insert(pos, text, selection)->Some_0.0.undo()->Some_0.1 == pos,
{
    let next = m.insert(pos, text, selection)->Some_0.0;
    lemma_with(m, pos, text);
    let record = Action::Delete { pos: pos as nat, text };
    assert(next.undo.last() == record);
    assert(next.undo.drop_last() =~= m.undo);
    assert(next.text.subrange(pos, pos + text.len()) =~= text);
    assert(record.apply(next.text) =~= m.text);
}

/// An insertion that replaced a live selection is taken back by two undos:
/// the first removes what was inserted, the second puts the selection back.
/// The document and the undo stack are then what they were, and the cursor
/// stands behind the selection.
pub proof fn law_two_undos_restore_selection(
    m: EditorModel,
    pos: int,
    text: Seq<char>,
    selection: (usize, usize),
)
    requires
        m.wf(),
        live_selection(Some(selection), m.text.len()) is Some,
    ensures
        m.insert(pos, text, Some(selection)) is Some,
        m.insert(pos, text, Some(selection))->Some_0.0.undo() is Some,
        m.insert(pos, text, Some(selection))->Some_0.0.undo()->Some_0.0.undo() is Some,
        m.insert(pos, text, Some(selection))->Some_0.0.undo()->Some_0.0.undo()->Some_0.0.text
            == m.text,
        m.insert(pos, text, Some(selection))->Some_0.0.undo()->Some_0.0.undo()->Some_0.0.undo
            == m.undo,
        m.insert(pos, text, Some(selection))->Some_0.0.undo()->Some_0.0.undo()->Some_0.1 == clamp(
            selection.1 as int,
            m.text.len(),
        ),
{
    let (start, end) = live_selection(Some(selection), m.text.len())->Some_0;
    let removed = m.without(start, end);
    let next = removed.with(start, text);
    lemma_without(m, start, end);
    lemma_with(removed, start, text);
    let second = Action::Delete { pos: start as nat, text };
    assert(next.undo.last() == second);
    assert(next.undo.drop_last() =~= removed.undo);
    assert(next.text.subrange(start, start + text.len()) =~= text);
    assert(second.apply(next.text) =~= removed.text);
    let once = next.undo()->Some_0.0;
    assert(once.undo =~= removed.undo);
    let first = Action::Insert { pos: start as nat, text: m.text.subrange(start, end) };
    assert(once.undo.last() == first);
    assert(once.undo.drop_last() =~= m.undo);
    assert(first.apply(once.text) =~= m.text);
}

/// One undo takes back a deletion: where deleting has removed anything, the
/// document and the undo stack are what they were before, and the cursor
/// stands behind the text that came back.
pub proof fn law_undo_restores_delete(
    m: EditorModel,
    pos: int,
    selection: Option<(usize, usize)>,
)
    requires
        m.wf(),
        m.delete(pos, selection).0.text != m.text,
    ensures
        m.delete(pos, selection).0.undo() is Some,
        m.delete(pos, selection).0.undo()->Some_0.0.text == m.text,
        m.delete(pos, selection).0.undo()->Some_0.0.undo == m.undo,
        selection is None ==> m.delete(pos, selection).0.undo()->Some_0.1 == pos,
        selection is Some ==> m.delete(pos, selection).0.undo()->Some_0.1 == clamp(
            selection->Some_0.1 as int,
            m.text.len(),
        ),
{
    let next = m.delete(pos, selection).0;
    let (start, end) = match selection {
        Some((start, end)) => (clamp(start as int, m.text.len()), clamp(end as int, m.text.len())),
        None => (pos - 1, pos),
    };
    assert(next == m.without(start, end));
    lemma_without(m, start, end);
    let record = Action::Insert { pos: start as nat, text: m.text.subrange(start, end) };
    assert(next.undo.last() == record);
    assert(next.undo.drop_last() =~= m.undo);
    assert(record.apply(next.text) =~= m.text);
}

/// Cutting and deleting clamp their range to the document: an end past the
/// document's length counts as that length, and deleting a selection is
/// cutting it. Where the clamped range is empty, the document and the undo
/// stack stay as they are, and the redo stack is emptied all the same.
pub proof fn law_clamped_bounds(m: EditorModel, pos: int, start: usize, end: usize)
    ensures
        m.delete(pos, Some((start, end))) == m.cut(start as int, end as int),
        end > m.text.len() ==> m.cut(start as int, end as int) == m.cut(
            start as int,
            m.text.len() as int,
        ),
        clamp(start as int, m.text.len()) >= clamp(end as int, m.text.len()) ==> m.cut(
            start as int,
            end as int,
        ).0 == m.touched(),
{
}

/// The lines of the projection tile the document. There is at least one
/// line; the first starts at 0, each one starts where the one before it ends,
/// and the last ends with the document.
pub proof fn law_rendered_lines_tile(text: Seq<char>)
    ensures
        rendered(text).len() == line_count(text) >= 1,
        rendered(text)[0].start_char_idx == 0,
        forall|i: int|
            0 <= i < rendered(text).len() ==> 0 <= (#[trigger] rendered(text)[i]).len_chars,
        forall|i: int|
            0 <= i < rendered(text).len() - 1 ==> (#[trigger] rendered(text)[i]).start_char_idx
                + rendered(text)[i].len_chars == rendered(text)[i + 1].start_char_idx,
        rendered(text).last().start_char_idx + rendered(text).last().len_chars == text.len(),
{
    lemma_lines_tile(text);
    assert forall|i: int| 0 <= i < rendered(text).len() implies 0 <= (#[trigger] rendered(
        text,
    )[i]).len_chars by {
        lemma_line_start(text, i as nat);
    }
}

} // verus!
