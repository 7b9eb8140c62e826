//! Text state of a screen-oriented text editor: a line-indexed document
//! store, a caret with a remembered column, and a scrolling viewport kept
//! consistent with the caret as the user navigates.
pub mod lines;
pub mod buffer;
pub mod cursor;
pub mod editor;
pub mod color;
pub mod cmdline;
