//! Helpers on text that the other modules share, and the formatters.

pub mod formatter;
pub mod text;
