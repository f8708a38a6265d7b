//! The editor's state and the values its commands hand back.

use crate::document::Document;
use crate::history::{Action, EditorModel};
use crate::lines::{lemma_line_start, line_count, line_start, line_text, strip_line_end};
use vstd::prelude::*;

verus! {

/// An edit record: what popping it off a stack does to the document.
#[derive(Debug)]
pub enum EditAction {
    /// Put `text` in before index `pos`.
    Insert { pos: usize, text: String },
    /// Take away the text at index `pos`, which is `text`.
    Delete { pos: usize, text: String },
}

impl View for EditAction {
    type V = Action;

    open spec fn view(&self) -> Action {
        match self {
            EditAction::Insert { pos, text } => Action::Insert { pos: *pos as nat, text: text@ },
            EditAction::Delete { pos, text } => Action::Delete { pos: *pos as nat, text: text@ },
        }
    }
}

/// The records of a stack, as contracts see them.
pub open spec fn actions_view(stack: Seq<EditAction>) -> Seq<Action> {
    stack.map_values(|action: EditAction| action@)
}

/// One line of the document, as the display needs it.
#[derive(Debug, Clone)]
pub struct LineInfo {
    /// The line without the carriage returns and line feeds at its end.
    pub text: String,
    /// The index of the line's first character.
    pub start_char_idx: usize,
    /// The length of the line, its line break included.
    pub len_chars: usize,
}

/// A `LineInfo`, as contracts see it.
pub struct LineView {
    pub text: Seq<char>,
    pub start_char_idx: int,
    pub len_chars: int,
}

impl View for LineInfo {
    type V = LineView;

    open spec fn view(&self) -> LineView {
        LineView {
            text: self.text@,
            start_char_idx: self.start_char_idx as int,
            len_chars: self.len_chars as int,
        }
    }
}

/// The lines of a projection, as contracts see them.
pub open spec fn lines_view(lines: Seq<LineInfo>) -> Seq<LineView> {
    lines.map_values(|line: LineInfo| line@)
}

/// Line `line` of `text`, as the display needs it.
pub open spec fn rendered_line(text: Seq<char>, line: nat) -> LineView {
    LineView {
        text: strip_line_end(line_text(text, line)),
        start_char_idx: line_start(text, line),
        len_chars: line_start(text, line + 1) - line_start(text, line),
    }
}

/// The line projection of `text`: one entry for each of its lines, in order.
pub open spec fn rendered(text: Seq<char>) -> Seq<LineView> {
    Seq::new(line_count(text), |line: int| rendered_line(text, line as nat))
}

/// What an edit hands back: the refreshed lines and the new cursor position.
#[derive(Debug, Clone)]
pub struct EditResult {
    pub lines: Vec<LineInfo>,
    pub cursor_pos: usize,
}

/// What opening a file hands back: the lines of the new document and the
/// file's path.
#[derive(Debug, Clone)]
pub struct OpenFileResult {
    pub lines: Vec<LineInfo>,
    pub path: String,
}

/// The document, its history, and the file it belongs to.
pub struct EditorState {
    pub(crate) document: Document,
    pub(crate) undo_stack: Vec<EditAction>,
    pub(crate) redo_stack: Vec<EditAction>,
    pub(crate) current_path: Option<String>,
}

/// The index behind the last character of the range `start` up to `end` that
/// is neither a carriage return nor a line feed.
fn stripped_end(doc: &Document, start: usize, end: usize) -> (stop: usize)
    requires
        start <= end <= doc@.len(),
    ensures
        start <= stop <= end,
        doc@.subrange(start as int, stop as int) == strip_line_end(
            doc@.subrange(start as int, end as int),
        ),
{
    let mut stop: usize = end;
    while stop > start
        invariant
            start <= stop <= end <= doc@.len(),
            strip_line_end(doc@.subrange(start as int, stop as int)) == strip_line_end(
                doc@.subrange(start as int, end as int),
            ),
        ensures
            start <= stop <= end,
            doc@.subrange(start as int, stop as int) == strip_line_end(
                doc@.subrange(start as int, end as int),
            ),
        decreases stop - start,
    {
        let ch: char = doc.char_at(stop - 1).unwrap();
        if ch != '\n' && ch != '\r' {
            break ;
        }
        assert(doc@.subrange(start as int, stop as int).drop_last() =~= doc@.subrange(
            start as int,
            stop - 1,
        ));
        stop -= 1;
    }
    stop
}

/// The line projection of a document.
pub fn render(doc: &Document) -> (lines: Vec<LineInfo>)
    ensures
        lines_view(lines@) == rendered(doc@),
{
    let count: usize = doc.line_count();
    let mut lines: Vec<LineInfo> = Vec::new();
    let mut start: usize = 0;
    let mut line: usize = 0;
    while line < count
        invariant
            line <= count == line_count(doc@),
            start == line_start(doc@, line as nat),
            lines@.len() == line,
            forall|i: int| 0 <= i < line ==> (#[trigger] lines@[i])@ == rendered_line(doc@, i as nat),
        decreases count - line,
    {
        proof {
            lemma_line_start(doc@, line as nat);
        }
        let end: usize = doc.line_to_char(line + 1).unwrap();
        let stop: usize = stripped_end(doc, start, end);
        let text: String = doc.slice(start, stop).unwrap();
        lines.push(LineInfo { text, start_char_idx: start, len_chars: end - start });
        start = end;
        line += 1;
    }
    assert(lines_view(lines@) =~= rendered(doc@));
    lines
}

impl EditorState {
    /// The state as contracts see it.
    pub open(crate) spec fn view(&self) -> EditorModel {
        EditorModel {
            text: self.document@,
            undo: actions_view(self.undo_stack@),
            redo: actions_view(self.redo_stack@),
            path: match self.current_path {
                Some(path) => Some(path@),
                None => None,
            },
        }
    }

    /// Both stacks fit the document: every record can be popped and applied
    /// in its turn.
    pub open spec fn wf(&self) -> bool {
        self@.wf()
    }

    /// An empty document with no history and no file.
    pub fn new() -> (state: EditorState)
        ensures
            state@ == EditorModel::empty(),
            state.wf(),
    {
        let state = EditorState {
            document: Document::new(),
            undo_stack: Vec::new(),
            redo_stack: Vec::new(),
            current_path: None,
        };
        assert(state@.undo =~= Seq::empty());
        assert(state@.redo =~= Seq::empty());
        state
    }

    /// The line projection of the document.
    pub fn get_rendered_text(&self) -> (lines: Vec<LineInfo>)
        ensures
            lines_view(lines@) == rendered(self@.text),
    {
        render(&self.document)
    }

    /// The document.
    pub fn document(&self) -> (doc: &Document)
        ensures
            doc@ == self@.text,
    {
        &self.document
    }

    /// The records that undo pops, the most recent edit last.
    pub fn undo_stack(&self) -> (stack: &Vec<EditAction>)
        ensures
            actions_view(stack@) == self@.undo,
    {
        &self.undo_stack
    }

    /// The records that redo pops, the most recent undo last.
    pub fn redo_stack(&self) -> (stack: &Vec<EditAction>)
        ensures
            actions_view(stack@) == self@.redo,
    {
        &self.redo_stack
    }

    /// The file the document belongs to.
    pub fn current_path(&self) -> (path: &Option<String>)
        ensures
            path is Some <==> self@.path is Some,
            path is Some ==> path->Some_0@ == self@.path->Some_0,
    {
        &self.current_path
    }
}

impl Default for EditorState {
    fn default() -> (state: EditorState)
        ensures
            state@ == EditorModel::empty(),
            state.wf(),
    {
        EditorState::new()
    }
}

} // verus!
