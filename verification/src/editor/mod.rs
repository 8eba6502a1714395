//! The text editor's state: lines, cursor, scroll position and dirty flag.

pub mod buffer;
pub mod cursor;
pub mod laws;
pub mod lines;
pub mod syntax;

pub use buffer::EditorBuffer;
pub use cursor::Cursor;
