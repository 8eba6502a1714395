//! The model of a terminal file browser: a line-oriented editing buffer,
//! a directory listing with filtering and sorting, and a chain of preview
//! providers. Nothing here touches the terminal or the disk; callers hand in
//! what they read and carry out what the library asks for.

pub mod editor;
pub mod filesystem;
pub mod git;
pub mod preview;
pub mod utils;
