//! The in-memory core of a text editor: a rope-backed document buffer with an
//! undo/redo history, a line projection for display, and substring search and
//! replace. Every position is a character index (a count of Unicode scalar
//! values), never a byte offset.

pub mod commands;
pub mod document;
pub mod editor;
pub mod error;
pub mod history;
pub mod laws;
pub mod lines;
pub mod rope;
pub mod search;
pub mod text;
