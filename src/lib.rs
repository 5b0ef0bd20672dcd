//! A minimal terminal text viewer: rows of text, a scrolled viewport over
//! them, cursor navigation, and the frames drawn on each refresh.
//!
//! Everything here is pure: terminal I/O happens in the program around the
//! library, which executes the draw commands and feeds back key events.

mod text;

pub mod document;
pub mod editor;
pub mod navigation;
pub mod position;
pub mod row;
pub mod screen;
pub mod scroll;

pub use document::Document;
pub use editor::{Editor, StatusMessage};
pub use navigation::{move_cursor, Key};
pub use position::{Position, Size};
pub use row::Row;
pub use screen::Command;
pub use scroll::rescroll;
