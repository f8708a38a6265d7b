//! The failures a command can report.

use vstd::prelude::*;

verus! {

/// Why a command did not run.
#[derive(Debug, Clone, Copy, PartialEq, Eq, Structural)]
pub enum EditError {
    /// The bytes of a file could not be read as text.
    IoError,
    /// The clipboard could not be read or written.
    ClipboardError,
    /// A position lies past the end of the document.
    OutOfRange,
    /// The undo stack is empty.
    NothingToUndo,
    /// The redo stack is empty.
    NothingToRedo,
}

impl EditError {
    /// The words that `message` hands out.
    pub open spec fn message_text(self) -> Seq<char> {
        match self {
            EditError::IoError => "stream did not contain valid UTF-8"@,
            EditError::ClipboardError => "The clipboard could not be read"@,
            EditError::OutOfRange => "Position is past the end of the document"@,
            EditError::NothingToUndo => "No actions to undo"@,
            EditError::NothingToRedo => "No actions to redo"@,
        }
    }

    /// The failure in words, for the user.
    pub fn message(&self) -> (text: &'static str)
        ensures
            text@ == self.message_text(),
    {
        match self {
            EditError::IoError => "stream did not contain valid UTF-8",
            EditError::ClipboardError => "The clipboard could not be read",
            EditError::OutOfRange => "Position is past the end of the document",
            EditError::NothingToUndo => "No actions to undo",
            EditError::NothingToRedo => "No actions to redo",
        }
    }
}

} // verus!
