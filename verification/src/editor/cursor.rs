//! A cursor position that is held to the shape of a buffer.

use vstd::prelude::*;
use vstd::string::*;
use vstd::math::{max, min};
use crate::editor::buffer::{BufferState, EditorBuffer};

verus! {

/// The line that a move to `line` ends on: `line`, or the last line where
/// `line` lies beyond it, or zero in a buffer without lines.
pub open spec fn clamped_line(buffer: BufferState, line: int) -> int {
    min(line, max(buffer.lines.len() - 1, 0))
}

/// The column that a move to `line` and `col` ends on: `col`, or the length
/// of the line that the move ends on where `col` lies beyond it.
pub open spec fn clamped_col(buffer: BufferState, line: int, col: int) -> int {
    let on = clamped_line(buffer, line);
    if 0 <= on < buffer.lines.len() {
        min(col, buffer.lines[on].len() as int)
    } else {
        0
    }
}

/// A position in a text, and whether it is shown.
#[derive(Debug, Clone)]
pub struct Cursor {
    pub line: usize,
    pub col: usize,
    pub visible: bool,
}

impl Cursor {
    /// A visible cursor at the given place.
    pub fn new(line: usize, col: usize) -> (cursor: Cursor)
        ensures
            cursor.line == line,
            cursor.col == col,
            cursor.visible,
    {
        Cursor { line, col, visible: true }
    }

    /// Moves to `line` and `col`, or to the nearest place that `buffer` has:
    /// no input is refused.
    pub fn move_to(&mut self, buffer: &EditorBuffer, line: usize, col: usize)
        ensures
            final(self).line == clamped_line(buffer@, line as int),
            final(self).col == clamped_col(buffer@, line as int, col as int),
            final(self).visible == old(self).visible,
            buffer@.lines.len() >= 1 ==> final(self).line < buffer@.lines.len() && final(self).col
                <= buffer@.lines[final(self).line as int].len(),
    {
        let count = buffer.total_lines();
        let last = if count > 0 {
            count - 1
        } else {
            0
        };
        self.line = if line < last {
            line
        } else {
            last
        };
        let len = match buffer.get_line(self.line) {
            Some(text) => text.as_str().unicode_len(),
            None => 0,
        };
        self.col = if col < len {
            col
        } else {
            len
        };
    }
}

} // verus!
