use editor_core::commands::{
    copy_text, cut_text, delete_char, insert_char, insert_newline, new_file, open_file,
    paste_text, redo, replace_all, replace_next, undo,
};
use editor_core::editor::{EditAction, EditorState};
use editor_core::error::EditError;

fn opened(text: &str) -> EditorState {
    let mut state = EditorState::new();
    open_file("notes.txt".to_string(), text.as_bytes(), &mut state).unwrap();
    state
}

fn text_of(state: &EditorState) -> String {
    state.document().text()
}

/// Makes the recorded edits again on `base`, the oldest first.
fn replay(base: &str, stack: &[EditAction]) -> String {
    let mut chars: Vec<char> = base.chars().collect();
    for record in stack {
        match record {
            // The record takes text away, so the edit put it in.
            EditAction::Delete { pos, text } => {
                let tail = chars.split_off(*pos);
                chars.extend(text.chars());
                chars.extend(tail);
            }
            // The record puts text back, so the edit took it away.
            EditAction::Insert { pos, text } => {
                let count = text.chars().count();
                let gone: String = chars[*pos..*pos + count].iter().collect();
                assert_eq!(&gone, text);
                chars.drain(*pos..*pos + count);
            }
        }
    }
    chars.into_iter().collect()
}

#[test]
fn replaying_the_undo_stack_reproduces_the_document() {
    let mut state = EditorState::new();
    assert_eq!(replay("", state.undo_stack()), text_of(&state));

    paste_text(0, None, Some("héllo wörld\nsecond line".to_string()), &mut state).unwrap();
    assert_eq!(replay("", state.undo_stack()), text_of(&state));
    insert_char(5, '!', Some((1, 3)), &mut state).unwrap();
    assert_eq!(replay("", state.undo_stack()), text_of(&state));
    insert_newline(4, None, &mut state).unwrap();
    assert_eq!(replay("", state.undo_stack()), text_of(&state));
    delete_char(3, None, &mut state).unwrap();
    assert_eq!(replay("", state.undo_stack()), text_of(&state));
    cut_text(2, 400, &mut state).unwrap();
    assert_eq!(replay("", state.undo_stack()), text_of(&state));
    undo(&mut state).unwrap();
    assert_eq!(replay("", state.undo_stack()), text_of(&state));
    undo(&mut state).unwrap();
    assert_eq!(replay("", state.undo_stack()), text_of(&state));
    redo(&mut state).unwrap();
    assert_eq!(replay("", state.undo_stack()), text_of(&state));
    replace_next(0, 2, "xyz".to_string(), &mut state).unwrap();
    assert_eq!(replay("", state.undo_stack()), text_of(&state));
    replace_all("l".to_string(), "LL".to_string(), &mut state).unwrap();
    assert_eq!(replay("", state.undo_stack()), text_of(&state));
    while undo(&mut state).is_ok() {
        assert_eq!(replay("", state.undo_stack()), text_of(&state));
    }
    assert_eq!(text_of(&state), "");
}

#[test]
fn replaying_on_an_opened_file_starts_from_its_content() {
    let mut state = opened("one\ntwo");
    insert_char(3, '!', None, &mut state).unwrap();
    delete_char(1, None, &mut state).unwrap();
    assert_eq!(text_of(&state), "ne!\ntwo");
    assert_eq!(replay("one\ntwo", state.undo_stack()), "ne!\ntwo");
}

#[test]
fn undo_then_redo_changes_nothing() {
    let mut state = opened("abcdef");
    let typed = insert_char(2, 'X', None, &mut state).unwrap();
    assert_eq!(typed.cursor_pos, 3);
    undo(&mut state).unwrap();
    let redone = redo(&mut state).unwrap();
    assert_eq!(text_of(&state), "abXcdef");
    assert_eq!(redone.cursor_pos, 3);
    assert_eq!(state.undo_stack().len(), 1);
    assert!(state.redo_stack().is_empty());

    let deleted = delete_char(4, None, &mut state).unwrap();
    assert_eq!(deleted.cursor_pos, 3);
    assert_eq!(text_of(&state), "abXdef");
    let undone = undo(&mut state).unwrap();
    assert_eq!(undone.cursor_pos, 4);
    let redone = redo(&mut state).unwrap();
    assert_eq!(redone.cursor_pos, 3);
    assert_eq!(text_of(&state), "abXdef");
    assert_eq!(state.undo_stack().len(), 2);
}

#[test]
fn undo_then_redo_after_replace_all_moves_the_cursor() {
    let mut state = opened("a-a");
    let replaced = replace_all("a".to_string(), "bb".to_string(), &mut state).unwrap();
    assert_eq!(replaced.cursor_pos, 0);
    undo(&mut state).unwrap();
    let redone = redo(&mut state).unwrap();
    assert_eq!(text_of(&state), "bb-bb");
    assert_eq!(redone.cursor_pos, 5);
}

#[test]
fn undo_moves_one_record_at_a_time() {
    let mut state = EditorState::new();
    insert_char(0, 'a', None, &mut state).unwrap();
    insert_char(1, 'b', None, &mut state).unwrap();
    insert_char(2, 'c', None, &mut state).unwrap();
    assert_eq!(state.undo_stack().len(), 3);
    undo(&mut state).unwrap();
    assert_eq!(state.undo_stack().len(), 2);
    assert_eq!(state.redo_stack().len(), 1);
    assert_eq!(text_of(&state), "ab");
    match &state.redo_stack()[0] {
        EditAction::Insert { pos, text } => {
            assert_eq!(*pos, 2);
            assert_eq!(text, "c");
        }
        EditAction::Delete { .. } => panic!("the redo record puts the character back"),
    }
}

#[test]
fn nothing_to_undo_and_nothing_to_redo() {
    let mut state = opened("text");
    assert_eq!(undo(&mut state).err(), Some(EditError::NothingToUndo));
    assert_eq!(redo(&mut state).err(), Some(EditError::NothingToRedo));
    assert_eq!(text_of(&state), "text");
    insert_char(0, 'a', None, &mut state).unwrap();
    assert_eq!(redo(&mut state).err(), Some(EditError::NothingToRedo));
}

#[test]
fn a_new_edit_empties_the_redo_stack() {
    let mut state = opened("abc");
    insert_char(3, 'd', None, &mut state).unwrap();
    undo(&mut state).unwrap();
    assert_eq!(state.redo_stack().len(), 1);
    insert_char(0, 'x', None, &mut state).unwrap();
    assert!(state.redo_stack().is_empty());
    assert_eq!(redo(&mut state).err(), Some(EditError::NothingToRedo));
}

#[test]
fn delete_at_position_zero_changes_nothing() {
    let mut state = opened("abc");
    insert_char(3, 'd', None, &mut state).unwrap();
    let deleted = delete_char(0, None, &mut state).unwrap();
    assert_eq!(deleted.cursor_pos, 0);
    assert_eq!(text_of(&state), "abcd");
    assert_eq!(state.undo_stack().len(), 1);
    assert!(state.redo_stack().is_empty());
}

#[test]
fn delete_at_position_zero_still_empties_the_redo_stack() {
    let mut state = opened("abc");
    insert_char(3, 'd', None, &mut state).unwrap();
    undo(&mut state).unwrap();
    assert_eq!(state.redo_stack().len(), 1);
    delete_char(0, None, &mut state).unwrap();
    assert_eq!(text_of(&state), "abc");
    assert!(state.undo_stack().is_empty());
    assert!(state.redo_stack().is_empty());
}

#[test]
fn delete_past_the_end_changes_nothing_and_reports_the_length() {
    let mut state = opened("abc");
    let deleted = delete_char(9, None, &mut state).unwrap();
    assert_eq!(deleted.cursor_pos, 3);
    assert_eq!(text_of(&state), "abc");
    assert!(state.undo_stack().is_empty());
}

#[test]
fn backspace_removes_the_character_before_the_cursor() {
    let mut state = opened("añb");
    let deleted = delete_char(2, None, &mut state).unwrap();
    assert_eq!(deleted.cursor_pos, 1);
    assert_eq!(text_of(&state), "ab");
    match &state.undo_stack()[0] {
        EditAction::Insert { pos, text } => {
            assert_eq!(*pos, 1);
            assert_eq!(text, "ñ");
        }
        EditAction::Delete { .. } => panic!("the undo record puts the character back"),
    }
    let undone = undo(&mut state).unwrap();
    assert_eq!(undone.cursor_pos, 2);
    assert_eq!(text_of(&state), "añb");
}

#[test]
fn inserting_over_a_selection_is_deleting_then_inserting() {
    let mut replaced = opened("hello world");
    let typed = insert_char(9, 'J', Some((0, 5)), &mut replaced).unwrap();

    let mut stepwise = opened("hello world");
    delete_char(9, Some((0, 5)), &mut stepwise).unwrap();
    let typed_after = insert_char(0, 'J', None, &mut stepwise).unwrap();

    assert_eq!(text_of(&replaced), "J world");
    assert_eq!(text_of(&replaced), text_of(&stepwise));
    assert_eq!(typed.cursor_pos, 1);
    assert_eq!(typed.cursor_pos, typed_after.cursor_pos);
    assert_eq!(replaced.undo_stack().len(), 2);
    assert_eq!(stepwise.undo_stack().len(), 2);
}

#[test]
fn inserting_over_a_selection_takes_two_undos() {
    let mut state = opened("ab");
    insert_char(0, 'x', Some((0, 1)), &mut state).unwrap();
    assert_eq!(text_of(&state), "xb");
    let undone = undo(&mut state).unwrap();
    assert_eq!(text_of(&state), "b");
    assert_eq!(undone.cursor_pos, 0);
    let undone = undo(&mut state).unwrap();
    assert_eq!(text_of(&state), "ab");
    assert_eq!(undone.cursor_pos, 1);
}

#[test]
fn one_undo_takes_back_a_plain_insertion() {
    let mut state = opened("abc");
    let typed = insert_newline(1, None, &mut state).unwrap();
    assert_eq!(text_of(&state), "a\nbc");
    assert_eq!(typed.cursor_pos, 2);
    assert_eq!(typed.lines.len(), 2);
    let undone = undo(&mut state).unwrap();
    assert_eq!(text_of(&state), "abc");
    assert_eq!(undone.cursor_pos, 1);
    assert!(state.undo_stack().is_empty());
}

#[test]
fn a_stale_selection_counts_as_no_selection_when_inserting() {
    let mut state = opened("abc");
    let typed = insert_char(1, 'x', Some((7, 9)), &mut state).unwrap();
    assert_eq!(text_of(&state), "axbc");
    assert_eq!(typed.cursor_pos, 2);
    assert_eq!(state.undo_stack().len(), 1);

    let typed = insert_char(0, 'y', Some((3, 2)), &mut state).unwrap();
    assert_eq!(text_of(&state), "yaxbc");
    assert_eq!(typed.cursor_pos, 1);
}

#[test]
fn inserting_past_the_end_is_refused() {
    let mut state = opened("abc");
    insert_char(3, 'd', None, &mut state).unwrap();
    undo(&mut state).unwrap();
    assert_eq!(insert_char(4, 'x', None, &mut state).err(), Some(EditError::OutOfRange));
    assert_eq!(insert_newline(4, None, &mut state).err(), Some(EditError::OutOfRange));
    assert_eq!(
        paste_text(4, None, Some("x".to_string()), &mut state).err(),
        Some(EditError::OutOfRange)
    );
    assert_eq!(insert_char(4, 'x', Some((5, 6)), &mut state).err(), Some(EditError::OutOfRange));
    assert_eq!(text_of(&state), "abc");
    assert!(state.undo_stack().is_empty());
    assert_eq!(state.redo_stack().len(), 1);

    assert!(insert_char(3, 'x', None, &mut state).is_ok());
    assert_eq!(text_of(&state), "abcx");
}

#[test]
fn a_selection_that_ends_past_the_document_is_clamped() {
    let mut state = opened("hello");
    let typed = insert_char(99, '!', Some((3, 99)), &mut state).unwrap();
    assert_eq!(text_of(&state), "hel!");
    assert_eq!(typed.cursor_pos, 4);
}

#[test]
fn cut_and_delete_clamp_the_end_of_the_range() {
    let mut clamped = opened("hello world");
    let mut exact = opened("hello world");
    let a = cut_text(6, 1000, &mut clamped).unwrap();
    let b = cut_text(6, 11, &mut exact).unwrap();
    assert_eq!(text_of(&clamped), "hello ");
    assert_eq!(text_of(&clamped), text_of(&exact));
    assert_eq!(a.cursor_pos, 6);
    assert_eq!(b.cursor_pos, 6);

    let mut clamped = opened("hello world");
    let mut exact = opened("hello world");
    let a = delete_char(0, Some((6, usize::MAX)), &mut clamped).unwrap();
    let b = delete_char(0, Some((6, 11)), &mut exact).unwrap();
    assert_eq!(text_of(&clamped), "hello ");
    assert_eq!(text_of(&clamped), text_of(&exact));
    assert_eq!(a.cursor_pos, b.cursor_pos);
}

#[test]
fn an_empty_range_removes_nothing_and_empties_the_redo_stack() {
    let mut state = opened("hello");
    insert_char(5, '!', None, &mut state).unwrap();
    undo(&mut state).unwrap();
    assert_eq!(state.redo_stack().len(), 1);
    let cut = cut_text(4, 2, &mut state).unwrap();
    assert_eq!(cut.cursor_pos, 4);
    assert_eq!(text_of(&state), "hello");
    assert!(state.undo_stack().is_empty());
    assert!(state.redo_stack().is_empty());

    insert_char(5, '!', None, &mut state).unwrap();
    undo(&mut state).unwrap();
    let deleted = delete_char(3, Some((20, 30)), &mut state).unwrap();
    assert_eq!(deleted.cursor_pos, 5);
    assert_eq!(text_of(&state), "hello");
    assert!(state.redo_stack().is_empty());
}

#[test]
fn cut_removes_what_copy_hands_out() {
    let mut state = opened("hello wörld");
    assert_eq!(copy_text(6, 9, &state), Ok("wör".to_string()));
    assert_eq!(copy_text(6, 900, &state), Ok("wörld".to_string()));
    assert_eq!(copy_text(9, 6, &state), Ok(String::new()));
    assert_eq!(copy_text(50, 60, &state), Ok(String::new()));
    assert!(state.undo_stack().is_empty());

    let cut = cut_text(6, 9, &mut state).unwrap();
    assert_eq!(cut.cursor_pos, 6);
    assert_eq!(text_of(&state), "hello ld");
    match &state.undo_stack()[0] {
        EditAction::Insert { pos, text } => {
            assert_eq!(*pos, 6);
            assert_eq!(text, "wör");
        }
        EditAction::Delete { .. } => panic!("the undo record puts the text back"),
    }
    let undone = undo(&mut state).unwrap();
    assert_eq!(undone.cursor_pos, 9);
    assert_eq!(text_of(&state), "hello wörld");
}

#[test]
fn paste_inserts_the_clipboard_text() {
    let mut state = opened("ab");
    let pasted = paste_text(1, None, Some("дом\n".to_string()), &mut state).unwrap();
    assert_eq!(text_of(&state), "aдом\nb");
    assert_eq!(pasted.cursor_pos, 5);
    assert_eq!(pasted.lines.len(), 2);
    assert_eq!(state.undo_stack().len(), 1);
    let undone = undo(&mut state).unwrap();
    assert_eq!(undone.cursor_pos, 1);
    assert_eq!(text_of(&state), "ab");
}

#[test]
fn paste_over_a_selection_records_both_steps() {
    let mut state = opened("hello world");
    let pasted = paste_text(0, Some((6, 11)), Some("there".to_string()), &mut state).unwrap();
    assert_eq!(text_of(&state), "hello there");
    assert_eq!(pasted.cursor_pos, 11);
    assert_eq!(state.undo_stack().len(), 2);
    match &state.undo_stack()[0] {
        EditAction::Insert { pos, text } => {
            assert_eq!(*pos, 6);
            assert_eq!(text, "world");
        }
        EditAction::Delete { .. } => panic!("the first record restores the selection"),
    }
    match &state.undo_stack()[1] {
        EditAction::Delete { pos, text } => {
            assert_eq!(*pos, 6);
            assert_eq!(text, "there");
        }
        EditAction::Insert { .. } => panic!("the second record removes the pasted text"),
    }
}

#[test]
fn paste_fails_without_the_clipboard() {
    let mut state = opened("hello");
    insert_char(5, '!', None, &mut state).unwrap();
    undo(&mut state).unwrap();
    assert_eq!(
        paste_text(0, Some((0, 5)), None, &mut state).err(),
        Some(EditError::ClipboardError)
    );
    assert_eq!(text_of(&state), "hello");
    assert!(state.undo_stack().is_empty());
    assert_eq!(state.redo_stack().len(), 1);
}

#[test]
fn replace_next_pushes_two_records() {
    let mut state = opened("foo bar foo");
    let replaced = replace_next(4, 7, "quux".to_string(), &mut state).unwrap();
    assert_eq!(text_of(&state), "foo quux foo");
    assert_eq!(replaced.cursor_pos, 8);
    assert_eq!(state.undo_stack().len(), 2);
    assert!(state.redo_stack().is_empty());

    let undone = undo(&mut state).unwrap();
    assert_eq!(text_of(&state), "foo  foo");
    assert_eq!(undone.cursor_pos, 4);
    let undone = undo(&mut state).unwrap();
    assert_eq!(text_of(&state), "foo bar foo");
    assert_eq!(undone.cursor_pos, 7);
}

#[test]
fn replace_next_clamps_its_range() {
    let mut state = opened("abc");
    let replaced = replace_next(2, 50, "XY".to_string(), &mut state).unwrap();
    assert_eq!(text_of(&state), "abXY");
    assert_eq!(replaced.cursor_pos, 4);

    let mut state = opened("abc");
    let replaced = replace_next(2, 1, "XY".to_string(), &mut state).unwrap();
    assert_eq!(text_of(&state), "abXYc");
    assert_eq!(replaced.cursor_pos, 4);
    assert_eq!(state.undo_stack().len(), 2);

    let mut state = opened("abc");
    let replaced = replace_next(70, 80, "XY".to_string(), &mut state).unwrap();
    assert_eq!(text_of(&state), "abcXY");
    assert_eq!(replaced.cursor_pos, 5);
}

#[test]
fn replace_all_is_undone_in_two_steps() {
    let mut state = opened("foo bar foo");
    insert_char(0, '>', None, &mut state).unwrap();
    undo(&mut state).unwrap();
    replace_all("foo".to_string(), "baz".to_string(), &mut state).unwrap();
    assert!(state.redo_stack().is_empty());
    assert_eq!(state.undo_stack().len(), 2);
    let undone = undo(&mut state).unwrap();
    assert_eq!(text_of(&state), "");
    assert_eq!(undone.cursor_pos, 0);
    let undone = undo(&mut state).unwrap();
    assert_eq!(text_of(&state), "foo bar foo");
    assert_eq!(undone.cursor_pos, 11);
}

#[test]
fn new_file_resets_everything() {
    let mut state = opened("some text");
    insert_char(0, 'a', None, &mut state).unwrap();
    insert_char(0, 'b', None, &mut state).unwrap();
    undo(&mut state).unwrap();
    let lines = new_file(&mut state).unwrap();
    assert_eq!(text_of(&state), "");
    assert!(state.undo_stack().is_empty());
    assert!(state.redo_stack().is_empty());
    assert_eq!(state.current_path(), &None);
    assert_eq!(lines.len(), 1);
    assert_eq!(lines[0].text, "");
    assert_eq!(lines[0].start_char_idx, 0);
    assert_eq!(lines[0].len_chars, 0);
}
