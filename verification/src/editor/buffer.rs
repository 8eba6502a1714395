//! The editing buffer: the lines of one file with a cursor, a scroll position
//! and a dirty flag.
//!
//! A column counts characters, not bytes, so every position between two
//! characters of a line is a valid column whatever the characters are.

use vstd::prelude::*;
use vstd::string::*;
use vstd::math::{max, min};
use crate::editor::lines::{join_lines, joined, lines_of, split_lines};
use crate::utils::text::{optional_text, texts};

verus! {

/// A buffer as contracts see it.
#[verifier::ext_equal]
pub struct BufferState {
    pub lines: Seq<Seq<char>>,
    pub path: Option<Seq<char>>,
    pub is_modified: bool,
    pub cursor_line: int,
    pub cursor_col: int,
    pub scroll_offset: int,
    pub selection_start: Option<(usize, usize)>,
    pub selection_end: Option<(usize, usize)>,
}

impl BufferState {
    /// A buffer that holds `lines` and was not touched yet: the cursor at
    /// the start, nothing scrolled, nothing selected, not modified.
    pub open spec fn fresh(lines: Seq<Seq<char>>, path: Option<Seq<char>>) -> BufferState {
        BufferState {
            lines,
            path,
            is_modified: false,
            cursor_line: 0,
            cursor_col: 0,
            scroll_offset: 0,
            selection_start: None,
            selection_end: None,
        }
    }

    /// There is at least one line, the cursor stands on a line, and its
    /// column is a place in that line where a character can be inserted.
    pub open spec fn well_formed(self) -> bool {
        &&& self.lines.len() >= 1
        &&& 0 <= self.cursor_line < self.lines.len()
        &&& 0 <= self.cursor_col <= self.lines[self.cursor_line].len()
    }

    /// The lines as an edit finds them: where the cursor stands past the
    /// last line, one empty line is appended first.
    pub open spec fn padded_lines(self) -> Seq<Seq<char>> {
        if self.cursor_line >= self.lines.len() {
            self.lines.push(Seq::empty())
        } else {
            self.lines
        }
    }

    /// The line that an edit works on.
    pub open spec fn current_line(self) -> Seq<char> {
        self.padded_lines()[self.cursor_line]
    }

    /// The cursor stands on a line or directly after the last one.
    pub open spec fn cursor_on_text(self) -> bool {
        0 <= self.cursor_line <= self.lines.len()
    }

    /// Where the cursor stands on a line, its column lies in that line or
    /// at its end.
    pub open spec fn column_in_line(self) -> bool {
        0 <= self.cursor_line < self.lines.len() ==> self.cursor_col
            <= self.lines[self.cursor_line].len()
    }

    /// The buffer after `ch` was typed. The character goes in at the cursor's
    /// column, or at the end of the line where the column lies beyond it,
    /// and the cursor stands directly behind it.
    pub open spec fn insert_char(self, ch: char) -> BufferState {
        let line = self.current_line();
        let at = min(self.cursor_col, line.len() as int);
        BufferState {
            lines: self.padded_lines().update(self.cursor_line, line.insert(at, ch)),
            cursor_col: at + 1,
            is_modified: true,
            ..self
        }
    }

    /// The buffer after the current line was broken at the cursor. What
    /// stood before the cursor stays; what stood after it becomes the next
    /// line, and the cursor goes to that line's start.
    pub open spec fn insert_newline(self) -> BufferState {
        let line = self.current_line();
        BufferState {
            lines: self.padded_lines().update(self.cursor_line, line.take(self.cursor_col)).insert(
                self.cursor_line + 1,
                line.skip(self.cursor_col),
            ),
            cursor_line: self.cursor_line + 1,
            cursor_col: 0,
            is_modified: true,
            ..self
        }
    }

    /// The buffer after a backspace. Inside a line the character before the
    /// cursor goes. At the start of a line but the first, the line is joined
    /// onto the end of the one before it, and the cursor stands where the
    /// two meet. At the start of the first line, and where the cursor stands
    /// on no line, nothing changes, the dirty flag included.
    pub open spec fn delete_char(self) -> BufferState {
        if self.cursor_line >= self.lines.len() {
            self
        } else if self.cursor_col > 0 {
            BufferState {
                lines: self.lines.update(
                    self.cursor_line,
                    self.lines[self.cursor_line].remove(self.cursor_col - 1),
                ),
                cursor_col: self.cursor_col - 1,
                is_modified: true,
                ..self
            }
        } else if self.cursor_line > 0 {
            let before = self.lines[self.cursor_line - 1];
            BufferState {
                lines: self.lines.update(
                    self.cursor_line - 1,
                    before + self.lines[self.cursor_line],
                ).remove(self.cursor_line),
                cursor_line: self.cursor_line - 1,
                cursor_col: before.len() as int,
                is_modified: true,
                ..self
            }
        } else {
            self
        }
    }

    /// The line that a move by `line_delta` aims at: the sum, or zero where
    /// the sum is negative.
    pub open spec fn target_line(self, line_delta: int) -> int {
        max(0, self.cursor_line + line_delta)
    }

    /// The buffer after a move of the cursor by the two deltas. A target
    /// line that does not exist leaves everything as it is. Otherwise the
    /// cursor goes to the target line, the target column (the sum, or zero
    /// where it is negative) is cut down to the line's length, and a scroll
    /// offset below the cursor's new line is pulled up to it. The scroll
    /// offset never grows.
    pub open spec fn move_cursor(self, line_delta: int, col_delta: int) -> BufferState {
        let line = self.target_line(line_delta);
        if line < self.lines.len() {
            BufferState {
                cursor_line: line,
                cursor_col: min(max(0, self.cursor_col + col_delta), self.lines[line].len() as int),
                scroll_offset: min(self.scroll_offset, line),
                ..self
            }
        } else {
            self
        }
    }

    /// The text that a save writes.
    pub open spec fn text(self) -> Seq<char> {
        join_lines(self.lines)
    }
}

/// The lines that a buffer holds for `text`: its lines, or one empty line
/// where it has none.
pub open spec fn loaded_lines(text: Seq<char>) -> Seq<Seq<char>> {
    if split_lines(text).len() == 0 {
        seq![Seq::<char>::empty()]
    } else {
        split_lines(text)
    }
}

/// What a save has to write, and where.
#[derive(Debug, Clone)]
pub struct SaveRequest {
    pub path: String,
    pub text: String,
}

/// One file's text in memory, with the state of the editing session.
#[derive(Debug, Clone)]
pub struct EditorBuffer {
    pub content: Vec<String>,
    pub path: Option<String>,
    pub is_modified: bool,
    pub cursor_line: usize,
    pub cursor_col: usize,
    pub scroll_offset: usize,
    pub selection_start: Option<(usize, usize)>,
    pub selection_end: Option<(usize, usize)>,
}

impl View for EditorBuffer {
    type V = BufferState;

    open spec fn view(&self) -> BufferState {
        BufferState {
            lines: texts(self.content@),
            path: optional_text(self.path),
            is_modified: self.is_modified,
            cursor_line: self.cursor_line as int,
            cursor_col: self.cursor_col as int,
            scroll_offset: self.scroll_offset as int,
            selection_start: self.selection_start,
            selection_end: self.selection_end,
        }
    }
}

/// `base + delta`, or zero where that is negative; nothing where it does not
/// fit.
fn shifted(base: usize, delta: i32) -> (r: Option<usize>)
    ensures
        match r {
            Some(v) => v == max(0, base + delta),
            None => base + delta > usize::MAX,
        },
{
    if delta >= 0 {
        let forward = delta as usize;
        if base <= usize::MAX - forward {
            Some(base + forward)
        } else {
            None
        }
    } else {
        let back = (-(delta as i64)) as usize;
        if base >= back {
            Some(base - back)
        } else {
            Some(0)
        }
    }
}

impl EditorBuffer {
    /// An empty buffer with no file behind it: one empty line.
    pub fn new() -> (buffer: EditorBuffer)
        ensures
            buffer@ == BufferState::fresh(seq![Seq::<char>::empty()], None),
            buffer@.well_formed(),
    {
        let mut content: Vec<String> = Vec::new();
        content.push(String::new());
        let buffer = EditorBuffer {
            content,
            path: None,
            is_modified: false,
            cursor_line: 0,
            cursor_col: 0,
            scroll_offset: 0,
            selection_start: None,
            selection_end: None,
        };
        assert(buffer@.lines =~= seq![Seq::<char>::empty()]);
        buffer
    }

    /// The buffer for a file at `path` that holds `text`: the text's lines,
    /// the cursor at the start, not modified. A text without lines gives one
    /// empty line.
    pub fn from_text(path: String, text: &str) -> (buffer: EditorBuffer)
        ensures
            buffer@ == BufferState::fresh(loaded_lines(text@), Some(path@)),
            buffer@.well_formed(),
    {
        let mut content = lines_of(text);
        if content.len() == 0 {
            content.push(String::new());
            assert(texts(content@) =~= seq![Seq::<char>::empty()]);
        }
        EditorBuffer {
            content,
            path: Some(path),
            is_modified: false,
            cursor_line: 0,
            cursor_col: 0,
            scroll_offset: 0,
            selection_start: None,
            selection_end: None,
        }
    }

    /// Types `ch` at the cursor. Whatever the column was, the buffer is
    /// well formed afterwards.
    pub fn insert_char(&mut self, ch: char)
        requires
            old(self)@.cursor_on_text(),
        ensures
            final(self)@ == old(self)@.insert_char(ch),
            final(self)@.lines.len() == old(self)@.padded_lines().len(),
            final(self)@.well_formed(),
    {
        if self.cursor_line >= self.content.len() {
            self.content.push(String::new());
        }
        assert(texts(self.content@) =~= old(self)@.padded_lines());
        let line = self.content[self.cursor_line].as_str();
        let len = line.unicode_len();
        let at = if self.cursor_col < len {
            self.cursor_col
        } else {
            len
        };
        let mut updated = String::from_str(line.substring_char(0, at));
        updated.push(ch);
        updated.append(line.substring_char(at, len));
        assert(updated@ =~= line@.insert(at as int, ch));
        // The longer line's length fits, and the new column is no more.
        let longer = updated.as_str().unicode_len();
        assert(at + 1 <= longer);
        self.content[self.cursor_line] = updated;
        self.cursor_col = at + 1;
        self.is_modified = true;
        assert(self@.lines =~= old(self)@.insert_char(ch).lines);
    }

    /// Breaks the current line at the cursor.
    pub fn insert_newline(&mut self)
        requires
            old(self)@.cursor_on_text(),
            old(self)@.cursor_col <= old(self)@.current_line().len(),
            old(self).cursor_line < usize::MAX,
        ensures
            final(self)@ == old(self)@.insert_newline(),
            final(self)@.lines.len() == old(self)@.padded_lines().len() + 1,
            old(self)@.well_formed() ==> final(self)@.well_formed(),
    {
        if self.cursor_line >= self.content.len() {
            self.content.push(String::new());
        }
        assert(texts(self.content@) =~= old(self)@.padded_lines());
        let line = self.content[self.cursor_line].as_str();
        let len = line.unicode_len();
        let head = String::from_str(line.substring_char(0, self.cursor_col));
        let tail = String::from_str(line.substring_char(self.cursor_col, len));
        assert(head@ =~= line@.take(self.cursor_col as int));
        assert(tail@ =~= line@.skip(self.cursor_col as int));
        self.content[self.cursor_line] = head;
        self.content.insert(self.cursor_line + 1, tail);
        self.cursor_line += 1;
        self.cursor_col = 0;
        self.is_modified = true;
        assert(self@.lines =~= old(self)@.insert_newline().lines);
    }

    /// Deletes backwards from the cursor. At the very start of the text
    /// nothing happens, and the buffer is not marked as modified.
    pub fn delete_char(&mut self)
        requires
            old(self)@.column_in_line(),
        ensures
            final(self)@ == old(self)@.delete_char(),
            old(self)@.well_formed() ==> final(self)@.well_formed(),
    {
        if self.cursor_line >= self.content.len() {
            return ;
        }
        if self.cursor_col > 0 {
            let line = self.content[self.cursor_line].as_str();
            let len = line.unicode_len();
            let mut updated = String::from_str(line.substring_char(0, self.cursor_col - 1));
            updated.append(line.substring_char(self.cursor_col, len));
            assert(updated@ =~= line@.remove(self.cursor_col - 1));
            self.content[self.cursor_line] = updated;
            self.cursor_col -= 1;
            self.is_modified = true;
            assert(self@.lines =~= old(self)@.delete_char().lines);
        } else if self.cursor_line > 0 {
            let removed = self.content.remove(self.cursor_line);
            self.cursor_line -= 1;
            let before = self.content[self.cursor_line].as_str();
            self.cursor_col = before.unicode_len();
            let mut merged = String::from_str(before);
            merged.append(removed.as_str());
            self.content[self.cursor_line] = merged;
            self.is_modified = true;
            assert(self@.lines =~= old(self)@.delete_char().lines);
        }
    }

    /// Moves the cursor by `line_delta` lines and `col_delta` columns. A
    /// move to a line that does not exist is not made at all. The scroll
    /// offset follows the cursor upwards only.
    pub fn move_cursor(&mut self, line_delta: i32, col_delta: i32)
        ensures
            final(self)@ == old(self)@.move_cursor(line_delta as int, col_delta as int),
            old(self)@.well_formed() ==> final(self)@.well_formed(),
    {
        let count = self.content.len();
        let line = match shifted(self.cursor_line, line_delta) {
            Some(line) => line,
            None => {
                return ;
            },
        };
        if line < count {
            let len = self.content[line].as_str().unicode_len();
            let col = match shifted(self.cursor_col, col_delta) {
                Some(col) => if col < len {
                    col
                } else {
                    len
                },
                None => len,
            };
            self.cursor_line = line;
            self.cursor_col = col;
            if self.cursor_line < self.scroll_offset {
                self.scroll_offset = self.cursor_line;
            }
        }
    }

    /// What a save has to write: the buffer's path and its lines joined by
    /// line feeds. A buffer without a path has nothing to write.
    pub fn save_request(&self) -> (request: Option<SaveRequest>)
        ensures
            match request {
                Some(r) => self@.path == Some(r.path@) && r.text@ == self@.text(),
                None => self@.path is None,
            },
    {
        match &self.path {
            Some(path) => Some(SaveRequest { path: path.clone(), text: joined(&self.content) }),
            None => None,
        }
    }

    /// Records how the write of a save ended: a write that succeeded leaves
    /// the buffer clean, one that failed leaves it as it was.
    pub fn finish_save(&mut self, written: bool)
        ensures
            final(self)@ == (BufferState {
                is_modified: old(self)@.is_modified && !written,
                ..old(self)@
            }),
    {
        if written {
            self.is_modified = false;
        }
    }

    /// The line at `index`, if there is one.
    pub fn get_line(&self, index: usize) -> (line: Option<&String>)
        ensures
            index < self.content.len() ==> line == Some(&self.content[index as int]),
            index >= self.content.len() ==> line is None,
    {
        if index < self.content.len() {
            Some(&self.content[index])
        } else {
            None
        }
    }

    /// The number of lines.
    pub fn total_lines(&self) -> (count: usize)
        ensures
            count == self@.lines.len(),
    {
        self.content.len()
    }
}

} // verus!
