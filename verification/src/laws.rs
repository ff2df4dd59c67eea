//! Laws of the editor, proved over the model's transition functions: what
//! whole command sequences do, not just single steps. Each law speaks about
//! the same transitions that the executable operations' contracts promise,
//! so it transfers to any run of the editor.

use vstd::prelude::*;

use crate::model::EDITOR_ROWS;
use crate::model::EditorModel;
use crate::model::clamp_col;
use crate::model::inv;
use crate::model::step_backspace;
use crate::model::step_cancel_prompt;
use crate::model::step_enter_prompt;
use crate::model::step_insert_char;
use crate::model::step_insert_newline;
use crate::model::step_move_down;
use crate::model::step_move_up;

verus! {

/// The state after typing the code points of `cs`, in order.
pub open spec fn steps_insert(m: EditorModel, cs: Seq<char>) -> EditorModel
    decreases cs.len(),
{
    if cs.len() == 0 {
        m
    } else {
        step_insert_char(steps_insert(m, cs.drop_last()), cs.last())
    }
}

/// The state after `n` edit-mode backspaces.
pub open spec fn steps_backspace(m: EditorModel, n: nat) -> EditorModel
    decreases n,
{
    if n == 0 {
        m
    } else {
        steps_backspace(step_backspace(m), (n - 1) as nat)
    }
}

/// The state after a sequence of vertical cursor moves: up where the entry
/// is true, down where it is false.
pub open spec fn steps_vertical(m: EditorModel, ups: Seq<bool>) -> EditorModel
    decreases ups.len(),
{
    if ups.len() == 0 {
        m
    } else {
        steps_vertical(
            if ups[0] {
                step_move_up(m)
            } else {
                step_move_down(m)
            },
            ups.drop_first(),
        )
    }
}

/// Typing one code point preserves the invariant and the mode.
pub proof fn lemma_insert_char_keeps_inv(m: EditorModel, c: char)
    requires
        inv(m),
    ensures
        inv(step_insert_char(m, c)),
        step_insert_char(m, c).mode == m.mode,
{
}

/// An edit-mode backspace preserves the invariant and the mode.
pub proof fn lemma_backspace_keeps_inv(m: EditorModel)
    requires
        inv(m),
        m.mode is Edit,
    ensures
        inv(step_backspace(m)),
        step_backspace(m).mode == m.mode,
{
}

/// Typing any sequence of code points in edit mode preserves the invariant,
/// stays in edit mode, keeps the cursor on its line, and advances the
/// column by one per code point.
pub proof fn lemma_steps_insert_keeps_inv(m: EditorModel, cs: Seq<char>)
    requires
        inv(m),
        m.mode is Edit,
    ensures
        inv(steps_insert(m, cs)),
        steps_insert(m, cs).mode is Edit,
        steps_insert(m, cs).buffer_row == m.buffer_row,
        steps_insert(m, cs).buffer_col == m.buffer_col + cs.len(),
    decreases cs.len(),
{
    if cs.len() > 0 {
        lemma_steps_insert_keeps_inv(m, cs.drop_last());
        lemma_insert_char_keeps_inv(steps_insert(m, cs.drop_last()), cs.last());
    }
}

/// One backspace exactly undoes one typed code point.
pub proof fn lemma_backspace_undoes_insert(m: EditorModel, c: char)
    requires
        inv(m),
        m.mode is Edit,
    ensures
        step_backspace(step_insert_char(m, c)) == m,
{
    let m1 = step_insert_char(m, c);
    assert(m1.lines[m.buffer_row].remove(m.buffer_col) =~= m.lines[m.buffer_row]);
    assert(step_backspace(m1).lines =~= m.lines);
    assert(step_backspace(m1) =~~= m);
}

/// Typing any sequence of code points and then backspacing as many times
/// returns the editor to exactly its prior state: the document
/// byte-for-byte, and the cursor to its prior buffer position.
pub proof fn lemma_insert_backspace_round_trip(m: EditorModel, cs: Seq<char>)
    requires
        inv(m),
        m.mode is Edit,
    ensures
        steps_backspace(steps_insert(m, cs), cs.len()) == m,
    decreases cs.len(),
{
    if cs.len() > 0 {
        let prev = steps_insert(m, cs.drop_last());
        lemma_steps_insert_keeps_inv(m, cs.drop_last());
        lemma_backspace_undoes_insert(prev, cs.last());
        assert(steps_backspace(steps_insert(m, cs), cs.len()) == steps_backspace(
            prev,
            (cs.len() - 1) as nat,
        ));
        lemma_insert_backspace_round_trip(m, cs.drop_last());
    }
}

/// A newline split followed immediately by a backspace at column 0 of the
/// new line restores the original document and buffer cursor exactly, and
/// the screen column with them; the screen row returns too whenever the
/// cursor was not already on the window's bottom row.
pub proof fn lemma_newline_backspace_inverse(m: EditorModel)
    requires
        inv(m),
        m.mode is Edit,
    ensures
        step_backspace(step_insert_newline(m)).lines == m.lines,
        step_backspace(step_insert_newline(m)).buffer_row == m.buffer_row,
        step_backspace(step_insert_newline(m)).buffer_col == m.buffer_col,
        step_backspace(step_insert_newline(m)).screen_col == m.screen_col,
        step_backspace(step_insert_newline(m)).mode == m.mode,
        step_backspace(step_insert_newline(m)).prompt == m.prompt,
        m.screen_row < EDITOR_ROWS - 1 ==> step_backspace(step_insert_newline(m)).screen_row
            == m.screen_row,
        m.screen_row == EDITOR_ROWS - 1 ==> step_backspace(step_insert_newline(m)).screen_row
            == EDITOR_ROWS - 2,
    {
    let r = m.buffer_row;
    let head = m.lines[r].take(m.buffer_col);
    let tail = m.lines[r].skip(m.buffer_col);
    let m1 = step_insert_newline(m);
    let updated = m.lines.update(r, head);
    updated.insert_ensures(r + 1, tail);
    assert(m1.lines[r] == head);
    assert(m1.lines[r + 1] == tail);
    assert(head + tail =~= m.lines[r]);
    let m2 = step_backspace(m1);
    assert(m2.lines =~= m.lines);
    assert(m2.buffer_col == head.len());
}

/// Moving up and then down from any interior position returns the cursor to
/// its original row with the document untouched; the column returns exactly
/// whenever the line above was long enough, and is otherwise clamped to
/// that intervening line's length.
pub proof fn lemma_move_up_down_round_trip(m: EditorModel)
    requires
        inv(m),
        m.mode is Edit,
        m.buffer_row > 0,
    ensures
        step_move_down(step_move_up(m)).lines == m.lines,
        step_move_down(step_move_up(m)).buffer_row == m.buffer_row,
        step_move_down(step_move_up(m)).buffer_col == clamp_col(
            m.buffer_col,
            m.lines[m.buffer_row - 1].len() as int,
        ),
        m.lines[m.buffer_row - 1].len() >= m.buffer_col ==> step_move_down(
            step_move_up(m),
        ).buffer_col == m.buffer_col,
{
}

/// One upward move preserves the invariant and the mode.
pub proof fn lemma_move_up_keeps_inv(m: EditorModel)
    requires
        inv(m),
    ensures
        inv(step_move_up(m)),
        step_move_up(m).mode == m.mode,
{
}

/// One downward move preserves the invariant and the mode.
pub proof fn lemma_move_down_keeps_inv(m: EditorModel)
    requires
        inv(m),
    ensures
        inv(step_move_down(m)),
        step_move_down(m).mode == m.mode,
{
}

/// The scroll invariant: after any sequence of up and down moves the state
/// invariant still holds, and in edit mode the screen row remains within
/// the window (`0 <= screen_row < EDITOR_ROWS`) with the viewport top never
/// negative (`buffer_row - screen_row >= 0`).
pub proof fn lemma_vertical_moves_keep_cursor_on_screen(m: EditorModel, ups: Seq<bool>)
    requires
        inv(m),
    ensures
        inv(steps_vertical(m, ups)),
        steps_vertical(m, ups).mode == m.mode,
        m.mode is Edit ==> 0 <= steps_vertical(m, ups).screen_row < EDITOR_ROWS,
        m.mode is Edit ==> steps_vertical(m, ups).buffer_row - steps_vertical(m, ups).screen_row
            >= 0,
    decreases ups.len(),
{
    if ups.len() > 0 {
        if ups[0] {
            lemma_move_up_keeps_inv(m);
            lemma_vertical_moves_keep_cursor_on_screen(step_move_up(m), ups.drop_first());
        } else {
            lemma_move_down_keeps_inv(m);
            lemma_vertical_moves_keep_cursor_on_screen(step_move_down(m), ups.drop_first());
        }
    }
}

/// Entering the open-file prompt and cancelling it is a no-op: the document
/// is untouched, the exact prior screen cursor is restored, and the editor
/// is back in edit mode with the logical cursor where it was. Only the
/// saved-cursor snapshot remembers that the prompt was ever opened.
pub proof fn lemma_prompt_cancel_is_no_op(m: EditorModel)
    requires
        inv(m),
        m.mode is Edit,
    ensures
        step_cancel_prompt(step_enter_prompt(m)) == (EditorModel {
            saved_row: m.screen_row,
            saved_col: m.screen_col,
            ..m
        }),
        step_cancel_prompt(step_enter_prompt(m)).lines == m.lines,
        step_cancel_prompt(step_enter_prompt(m)).screen_row == m.screen_row,
        step_cancel_prompt(step_enter_prompt(m)).screen_col == m.screen_col,
        step_cancel_prompt(step_enter_prompt(m)).buffer_row == m.buffer_row,
        step_cancel_prompt(step_enter_prompt(m)).buffer_col == m.buffer_col,
        step_cancel_prompt(step_enter_prompt(m)).mode is Edit,
        step_cancel_prompt(step_enter_prompt(m)).prompt == m.prompt,
{
    assert(Seq::<char>::empty() =~= m.prompt);
}

} // verus!
