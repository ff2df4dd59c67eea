//! The mathematical model of the editor: its abstract state, the state
//! invariant that every operation maintains, and one transition function per
//! editor command. The executable editor promises, operation by operation,
//! that its new state is exactly the corresponding transition of its old
//! state; the laws about command sequences are then proved over these
//! transitions alone.

use vstd::prelude::*;

verus! {

/// Height of the visible text window, in rows.
pub const EDITOR_ROWS: usize = 32;

/// Width of the visible text window, in columns.
pub const EDITOR_COLS: usize = 80;

/// Hysteresis band: how close the screen cursor may come to the top or
/// bottom edge of the window before the viewport scrolls instead.
pub const SCROLL_MARGIN: usize = 5;

/// Screen column where prompt input starts, just past the prompt label.
pub const OPEN_FILE_MARGIN: usize = 11;

/// The editor's input mode: ordinary editing, or the open-file prompt that
/// redirects typing into a filename buffer.
#[derive(Clone, Copy, PartialEq, Eq, Structural, Debug)]
pub enum EditorMode {
    Edit,
    OpenFilePrompt,
}

/// The abstract editor state.
///
/// `buffer_row`/`buffer_col` are the logical cursor: a line index into
/// `lines` and a code-point offset within that line. `screen_row`/
/// `screen_col` are the cursor's position inside the fixed window; the top
/// line of the viewport is the derived `buffer_row - screen_row`. In prompt
/// mode the screen cursor sits on the status row below the window, `prompt`
/// holds the typed filename, and `saved_row`/`saved_col` remember the screen
/// cursor to restore on cancel.
#[verifier::ext_equal]
pub struct EditorModel {
    pub lines: Seq<Seq<char>>,
    pub buffer_row: int,
    pub buffer_col: int,
    pub screen_row: int,
    pub screen_col: int,
    pub mode: EditorMode,
    pub prompt: Seq<char>,
    pub saved_row: int,
    pub saved_col: int,
}

/// Smaller of a column and a line length: where the cursor lands on a line
/// that may be shorter than the column it came from.
pub open spec fn clamp_col(col: int, line_len: int) -> int {
    if col <= line_len {
        col
    } else {
        line_len
    }
}

/// The screen column that mirrors buffer column `col`: the same offset until
/// the window's right edge, where it stops advancing (long lines do not
/// scroll horizontally).
pub open spec fn col_on_screen(col: int) -> int {
    if col < EDITOR_COLS - 1 {
        col
    } else {
        EDITOR_COLS - 1
    }
}

/// The state invariant, maintained by every transition.
///
/// The document always has at least one line and the logical cursor stays in
/// bounds. In edit mode the screen cursor stays inside the window, never
/// above the viewport top (`buffer_row - screen_row >= 0`), with the screen
/// column mirroring the buffer column, and the prompt buffer empty. In
/// prompt mode the screen cursor sits on the status row within the typed
/// text, and the saved screen cursor is a valid edit-mode cursor for the
/// untouched logical position, so that cancelling restores a valid state.
pub open spec fn inv(m: EditorModel) -> bool {
    &&& m.lines.len() >= 1
    &&& 0 <= m.buffer_row < m.lines.len()
    &&& 0 <= m.buffer_col <= m.lines[m.buffer_row].len()
    &&& match m.mode {
        EditorMode::Edit => {
            &&& 0 <= m.screen_row <= m.buffer_row
            &&& m.screen_row < EDITOR_ROWS
            &&& m.screen_col == col_on_screen(m.buffer_col)
            &&& m.prompt.len() == 0
        },
        EditorMode::OpenFilePrompt => {
            &&& m.screen_row == EDITOR_ROWS
            &&& OPEN_FILE_MARGIN <= m.screen_col <= OPEN_FILE_MARGIN + m.prompt.len()
            &&& 0 <= m.saved_row <= m.buffer_row
            &&& m.saved_row < EDITOR_ROWS
            &&& m.saved_col == col_on_screen(m.buffer_col)
        },
    }
}

/// The state of a freshly created editor: one empty line, cursor at the
/// origin, edit mode.
pub open spec fn initial_model() -> EditorModel {
    EditorModel {
        lines: seq![Seq::<char>::empty()],
        buffer_row: 0,
        buffer_col: 0,
        screen_row: 0,
        screen_col: 0,
        mode: EditorMode::Edit,
        prompt: Seq::empty(),
        saved_row: 0,
        saved_col: 0,
    }
}

/// Inserting one code point. In edit mode it goes into the current line at
/// the buffer column and the cursor advances; in prompt mode it goes into
/// the prompt buffer at the screen cursor.
pub open spec fn step_insert_char(m: EditorModel, c: char) -> EditorModel {
    match m.mode {
        EditorMode::Edit => EditorModel {
            lines: m.lines.update(m.buffer_row, m.lines[m.buffer_row].insert(m.buffer_col, c)),
            buffer_col: m.buffer_col + 1,
            screen_col: col_on_screen(m.buffer_col + 1),
            ..m
        },
        EditorMode::OpenFilePrompt => EditorModel {
            prompt: m.prompt.insert(m.screen_col - OPEN_FILE_MARGIN, c),
            screen_col: m.screen_col + 1,
            ..m
        },
    }
}

/// Backspace in edit mode. Mid-line it deletes the code point before the
/// cursor; at column 0 of a non-first line it joins the line onto the
/// previous one and puts the cursor at the join point; at the very start of
/// the document it does nothing.
pub open spec fn step_backspace(m: EditorModel) -> EditorModel {
    if m.buffer_col > 0 {
        EditorModel {
            lines: m.lines.update(m.buffer_row, m.lines[m.buffer_row].remove(m.buffer_col - 1)),
            buffer_col: m.buffer_col - 1,
            screen_col: col_on_screen(m.buffer_col - 1),
            ..m
        }
    } else if m.buffer_row > 0 {
        EditorModel {
            lines: m.lines.update(
                m.buffer_row - 1,
                m.lines[m.buffer_row - 1] + m.lines[m.buffer_row],
            ).remove(m.buffer_row),
            buffer_row: m.buffer_row - 1,
            buffer_col: m.lines[m.buffer_row - 1].len() as int,
            screen_col: col_on_screen(m.lines[m.buffer_row - 1].len() as int),
            screen_row: if m.screen_row > 0 {
                m.screen_row - 1
            } else {
                0
            },
            ..m
        }
    } else {
        m
    }
}

/// Backspace while the open-file prompt is active: deletes the prompt
/// character before the screen cursor, unless the cursor is at the prompt
/// start or the prompt is empty.
pub open spec fn step_backspace_prompt(m: EditorModel) -> EditorModel {
    if m.prompt.len() == 0 || m.screen_col <= OPEN_FILE_MARGIN {
        m
    } else {
        EditorModel {
            prompt: m.prompt.remove(m.screen_col - OPEN_FILE_MARGIN - 1),
            screen_col: m.screen_col - 1,
            ..m
        }
    }
}

/// Newline insertion: splits the current line at the cursor and moves the
/// cursor to the start of the new line. The screen cursor always moves down
/// one row when possible (no hysteresis here), clamped to the window bottom.
pub open spec fn step_insert_newline(m: EditorModel) -> EditorModel {
    EditorModel {
        lines: m.lines.update(
            m.buffer_row,
            m.lines[m.buffer_row].take(m.buffer_col),
        ).insert(m.buffer_row + 1, m.lines[m.buffer_row].skip(m.buffer_col)),
        buffer_row: m.buffer_row + 1,
        buffer_col: 0,
        screen_col: 0,
        screen_row: if m.screen_row < EDITOR_ROWS - 1 {
            m.screen_row + 1
        } else {
            EDITOR_ROWS - 1
        },
        ..m
    }
}

/// Cursor left. In edit mode it steps back within the line, or onto the end
/// of the previous line (the screen row follows only while it is above the
/// window top). In prompt mode it steps back within the prompt text.
pub open spec fn step_move_left(m: EditorModel) -> EditorModel {
    match m.mode {
        EditorMode::Edit => {
            if m.buffer_col > 0 {
                EditorModel {
                    buffer_col: m.buffer_col - 1,
                    screen_col: col_on_screen(m.buffer_col - 1),
                    ..m
                }
            } else if m.buffer_row > 0 {
                EditorModel {
                    buffer_row: m.buffer_row - 1,
                    buffer_col: m.lines[m.buffer_row - 1].len() as int,
                    screen_col: col_on_screen(m.lines[m.buffer_row - 1].len() as int),
                    screen_row: if m.screen_row > 0 {
                        m.screen_row - 1
                    } else {
                        0
                    },
                    ..m
                }
            } else {
                m
            }
        },
        EditorMode::OpenFilePrompt => {
            if m.screen_col > OPEN_FILE_MARGIN {
                EditorModel { screen_col: m.screen_col - 1, ..m }
            } else {
                m
            }
        },
    }
}

/// Cursor right. In edit mode it advances within the line (the screen
/// column stops at the window's right edge), or onto the start of the next
/// line. In prompt mode it advances within the prompt text.
pub open spec fn step_move_right(m: EditorModel) -> EditorModel {
    match m.mode {
        EditorMode::Edit => {
            if m.buffer_col < m.lines[m.buffer_row].len() {
                EditorModel {
                    buffer_col: m.buffer_col + 1,
                    screen_col: col_on_screen(m.buffer_col + 1),
                    ..m
                }
            } else if m.buffer_row < m.lines.len() - 1 {
                EditorModel { buffer_row: m.buffer_row + 1, buffer_col: 0, screen_col: 0, ..m }
            } else {
                m
            }
        },
        EditorMode::OpenFilePrompt => {
            if m.screen_col < OPEN_FILE_MARGIN + m.prompt.len() {
                EditorModel { screen_col: m.screen_col + 1, ..m }
            } else {
                m
            }
        },
    }
}

/// Cursor up, with scroll hysteresis. The logical cursor moves to the line
/// above (column clamped to its length). The screen cursor follows, except
/// that once it reaches the top margin row while lines remain above the
/// viewport, it holds steady and the viewport scrolls instead. Suppressed in
/// prompt mode.
pub open spec fn step_move_up(m: EditorModel) -> EditorModel {
    if m.mode is OpenFilePrompt {
        m
    } else if m.buffer_row > 0 {
        let new_col = clamp_col(m.buffer_col, m.lines[m.buffer_row - 1].len() as int);
        EditorModel {
            buffer_row: m.buffer_row - 1,
            buffer_col: new_col,
            screen_col: col_on_screen(new_col),
            screen_row: if m.screen_row > 0 && !(m.screen_row == SCROLL_MARGIN
                && m.buffer_row - 1 > SCROLL_MARGIN) {
                m.screen_row - 1
            } else {
                m.screen_row
            },
            ..m
        }
    } else {
        m
    }
}

/// Cursor down, with scroll hysteresis. The logical cursor moves to the
/// line below (column clamped to its length). The screen cursor follows,
/// except that once it reaches the bottom margin row while more lines remain
/// below, it holds steady and the viewport scrolls instead. Suppressed in
/// prompt mode.
pub open spec fn step_move_down(m: EditorModel) -> EditorModel {
    if m.mode is OpenFilePrompt {
        m
    } else if m.buffer_row == m.lines.len() - 1 {
        m
    } else {
        let new_col = clamp_col(m.buffer_col, m.lines[m.buffer_row + 1].len() as int);
        EditorModel {
            buffer_row: m.buffer_row + 1,
            buffer_col: new_col,
            screen_col: col_on_screen(new_col),
            screen_row: if m.screen_row < EDITOR_ROWS - 1 && !(m.screen_row == EDITOR_ROWS
                - SCROLL_MARGIN && m.lines.len() - (m.buffer_row + 1) > SCROLL_MARGIN) {
                m.screen_row + 1
            } else {
                m.screen_row
            },
            ..m
        }
    }
}

/// Home: the cursor jumps to the start of the line, or of the prompt text.
pub open spec fn step_home(m: EditorModel) -> EditorModel {
    match m.mode {
        EditorMode::Edit => EditorModel { buffer_col: 0, screen_col: 0, ..m },
        EditorMode::OpenFilePrompt => EditorModel { screen_col: OPEN_FILE_MARGIN as int, ..m },
    }
}

/// End: the cursor jumps to the end of the line, or of the prompt text.
pub open spec fn step_end(m: EditorModel) -> EditorModel {
    match m.mode {
        EditorMode::Edit => EditorModel {
            buffer_col: m.lines[m.buffer_row].len() as int,
            screen_col: col_on_screen(m.lines[m.buffer_row].len() as int),
            ..m
        },
        EditorMode::OpenFilePrompt => EditorModel {
            screen_col: OPEN_FILE_MARGIN + m.prompt.len(),
            ..m
        },
    }
}

/// Entering the open-file prompt: the screen cursor is saved, the prompt
/// buffer cleared, and the screen cursor moved to the prompt's input start
/// on the status row. Already being in the prompt changes nothing.
pub open spec fn step_enter_prompt(m: EditorModel) -> EditorModel {
    match m.mode {
        EditorMode::Edit => EditorModel {
            mode: EditorMode::OpenFilePrompt,
            prompt: Seq::empty(),
            saved_row: m.screen_row,
            saved_col: m.screen_col,
            screen_row: EDITOR_ROWS as int,
            screen_col: OPEN_FILE_MARGIN as int,
            ..m
        },
        EditorMode::OpenFilePrompt => m,
    }
}

/// Cancelling the prompt: back to edit mode with the saved screen cursor
/// restored and the prompt text discarded; the document is untouched. In
/// edit mode this changes nothing.
pub open spec fn step_cancel_prompt(m: EditorModel) -> EditorModel {
    match m.mode {
        EditorMode::Edit => m,
        EditorMode::OpenFilePrompt => EditorModel {
            mode: EditorMode::Edit,
            prompt: Seq::empty(),
            screen_row: m.saved_row,
            screen_col: m.saved_col,
            ..m
        },
    }
}

/// Confirming the prompt leaves prompt mode exactly as cancelling does; the
/// typed filename is handed back to the caller, who attempts the load and,
/// on success, applies `step_load`.
pub open spec fn step_confirm_prompt(m: EditorModel) -> EditorModel {
    step_cancel_prompt(m)
}

/// Loading new content: the lines replace the document wholesale (an empty
/// load leaves one empty line) and the editor returns to a clean edit state
/// with the cursor at the origin.
pub open spec fn step_load(m: EditorModel, new_lines: Seq<Seq<char>>) -> EditorModel {
    EditorModel {
        lines: if new_lines.len() == 0 {
            seq![Seq::<char>::empty()]
        } else {
            new_lines
        },
        buffer_row: 0,
        buffer_col: 0,
        screen_row: 0,
        screen_col: 0,
        mode: EditorMode::Edit,
        prompt: Seq::empty(),
        saved_row: 0,
        saved_col: 0,
    }
}

/// The buffer row shown at the top of the window.
pub open spec fn view_top(m: EditorModel) -> int {
    if m.buffer_row >= m.screen_row {
        m.buffer_row - m.screen_row
    } else {
        0
    }
}

/// One past the last buffer row inside the window.
pub open spec fn view_end(m: EditorModel) -> int {
    if m.lines.len() - view_top(m) > EDITOR_ROWS {
        view_top(m) + EDITOR_ROWS
    } else {
        m.lines.len() as int
    }
}

} // verus!
