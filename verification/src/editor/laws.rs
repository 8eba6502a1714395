//! What holds of the buffer's operations taken together.

use vstd::prelude::*;
use crate::editor::buffer::{loaded_lines, BufferState};
use crate::editor::lines::{lemma_split_of_joined, survive_joining};

verus! {

/// One step of editing.
pub enum Edit {
    InsertChar(char),
    InsertNewline,
    DeleteChar,
}

/// The buffer after one step.
pub open spec fn apply(state: BufferState, edit: Edit) -> BufferState {
    match edit {
        Edit::InsertChar(ch) => state.insert_char(ch),
        Edit::InsertNewline => state.insert_newline(),
        Edit::DeleteChar => state.delete_char(),
    }
}

/// The buffer after the steps of `edits`, first to last.
pub open spec fn apply_all(state: BufferState, edits: Seq<Edit>) -> BufferState
    decreases edits.len(),
{
    if edits.len() == 0 {
        state
    } else {
        apply(apply_all(state, edits.drop_last()), edits.last())
    }
}

/// Typing, breaking lines and deleting, in any order and number, keep a
/// buffer well formed; in particular it never runs out of lines.
pub proof fn lemma_edits_keep_a_line(state: BufferState, edits: Seq<Edit>)
    requires
        state.well_formed(),
    ensures
        apply_all(state, edits).well_formed(),
        apply_all(state, edits).lines.len() >= 1,
    decreases edits.len(),
{
    if edits.len() > 0 {
        lemma_edits_keep_a_line(state, edits.drop_last());
    }
}

/// After typing, the cursor stands in the line directly behind the typed
/// character, wherever its column was before: a column beyond the line's
/// end counts as the line's end.
pub proof fn lemma_typing_puts_the_cursor_behind_the_character(state: BufferState, ch: char)
    requires
        state.cursor_on_text(),
        state.cursor_col >= 0,
    ensures
        state.insert_char(ch).well_formed(),
        state.insert_char(ch).lines.len() == state.padded_lines().len(),
        state.insert_char(ch).lines[state.cursor_line][state.insert_char(ch).cursor_col - 1] == ch,
        state.cursor_col >= state.current_line().len() ==> state.insert_char(ch).lines[state.cursor_line]
            == state.current_line().push(ch) && state.insert_char(ch).cursor_col
            == state.current_line().len() + 1,
{
    let line = state.current_line();
    if state.cursor_col >= line.len() {
        assert(line.insert(line.len() as int, ch) =~= line.push(ch));
    }
}

/// Breaking a line and deleting backwards at once gives back the lines and
/// the cursor that were there; only the dirty flag is set.
pub proof fn lemma_newline_then_delete_restores(state: BufferState)
    requires
        state.well_formed(),
    ensures
        state.insert_newline().delete_char() == (BufferState { is_modified: true, ..state }),
        state.insert_newline().delete_char().lines == state.lines,
        state.insert_newline().delete_char().cursor_line == state.cursor_line,
        state.insert_newline().delete_char().cursor_col == state.cursor_col,
{
    let line = state.lines[state.cursor_line];
    assert(line.take(state.cursor_col) + line.skip(state.cursor_col) =~= line);
    assert(state.insert_newline().delete_char().lines =~= state.lines);
}

/// A move by nothing, made twice, does what it does when made once.
pub proof fn lemma_null_move_idempotent(state: BufferState)
    ensures
        state.move_cursor(0, 0).move_cursor(0, 0) == state.move_cursor(0, 0),
{
}

/// A move by nothing leaves the scroll offset alone, unless the offset lay
/// below the cursor's line before.
pub proof fn lemma_null_move_keeps_scroll(state: BufferState)
    requires
        state.target_line(0) < state.lines.len() ==> state.scroll_offset <= state.target_line(0),
    ensures
        state.move_cursor(0, 0).scroll_offset == state.scroll_offset,
{
}

/// A move by nothing changes nothing at all in a well formed buffer whose
/// scroll offset is not below the cursor's line.
pub proof fn lemma_null_move_is_identity(state: BufferState)
    requires
        state.well_formed(),
        state.scroll_offset <= state.cursor_line,
    ensures
        state.move_cursor(0, 0) == state,
{
}

/// A move that aims past the last line changes nothing: not the cursor, not
/// the scroll offset.
pub proof fn lemma_move_past_end_changes_nothing(
    state: BufferState,
    line_delta: int,
    col_delta: int,
)
    requires
        state.target_line(line_delta) >= state.lines.len(),
    ensures
        state.move_cursor(line_delta, col_delta) == state,
{
}

/// What a buffer saves loads back as the lines that it holds, as far as a
/// text can hold them.
pub proof fn lemma_saved_text_loads_back(state: BufferState)
    requires
        state.lines.len() >= 1,
        survive_joining(state.lines),
    ensures
        loaded_lines(state.text()) == state.lines,
{
    lemma_split_of_joined(state.lines);
}

} // verus!
