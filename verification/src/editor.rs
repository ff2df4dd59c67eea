//! The executable editor: a document plus cursor, viewport, mode and prompt
//! state. Every operation's contract says that the editor's abstract state
//! steps exactly as the corresponding transition function of the model, and
//! that the state invariant is maintained.

use vstd::prelude::*;

use crate::document::Document;
use crate::document::lines_view;
use crate::model::EDITOR_COLS;
use crate::model::EDITOR_ROWS;
use crate::model::EditorMode;
use crate::model::EditorModel;
use crate::model::OPEN_FILE_MARGIN;
use crate::model::SCROLL_MARGIN;
use crate::model::initial_model;
use crate::model::inv;
use crate::model::step_backspace;
use crate::model::step_backspace_prompt;
use crate::model::step_cancel_prompt;
use crate::model::step_confirm_prompt;
use crate::model::step_end;
use crate::model::step_enter_prompt;
use crate::model::step_home;
use crate::model::step_insert_char;
use crate::model::step_insert_newline;
use crate::model::step_load;
use crate::model::step_move_down;
use crate::model::step_move_left;
use crate::model::step_move_right;
use crate::model::step_move_up;
use crate::model::view_end;
use crate::model::view_top;

verus! {

/// The editor session: the document being edited, the logical and screen
/// cursors, the input mode with its prompt buffer and saved cursor, the
/// dirty flag, and the cursor-blink state.
pub struct TextEditor {
    doc: Document,
    buffer_row: usize,
    buffer_col: usize,
    screen_row: usize,
    screen_col: usize,
    mode: EditorMode,
    input_buffer: Vec<char>,
    saved_row: usize,
    saved_col: usize,
    is_modified: bool,
    cursor_visible: bool,
    last_blink_ms: u64,
}

impl View for TextEditor {
    type V = EditorModel;

    closed spec fn view(&self) -> EditorModel {
        EditorModel {
            lines: self.doc@,
            buffer_row: self.buffer_row as int,
            buffer_col: self.buffer_col as int,
            screen_row: self.screen_row as int,
            screen_col: self.screen_col as int,
            mode: self.mode,
            prompt: self.input_buffer@,
            saved_row: self.saved_row as int,
            saved_col: self.saved_col as int,
        }
    }
}

/// The cursor-blink state is unchanged between two editor values.
pub open spec fn blink_unchanged(a: &TextEditor, b: &TextEditor) -> bool {
    &&& b.spec_blink_visible() == a.spec_blink_visible()
    &&& b.spec_blink_last() == a.spec_blink_last()
}

impl TextEditor {
    /// The state invariant of the abstract editor state.
    pub open spec fn wf(&self) -> bool {
        inv(self@)
    }

    /// Whether the document has unsaved changes.
    pub closed spec fn spec_modified(&self) -> bool {
        self.is_modified
    }

    /// Whether the blinking cursor is currently shown.
    pub closed spec fn spec_blink_visible(&self) -> bool {
        self.cursor_visible
    }

    /// The timestamp, in milliseconds, of the last blink toggle.
    pub closed spec fn spec_blink_last(&self) -> u64 {
        self.last_blink_ms
    }

    /// A fresh editor: one empty line, cursor at the origin, edit mode, an
    /// unmodified document and a visible cursor.
    pub fn new() -> (ed: TextEditor)
        ensures
            ed@ == initial_model(),
            ed.wf(),
            !ed.spec_modified(),
            ed.spec_blink_visible(),
            ed.spec_blink_last() == 0,
    {
        let ed = TextEditor {
            doc: Document::new(),
            buffer_row: 0,
            buffer_col: 0,
            screen_row: 0,
            screen_col: 0,
            mode: EditorMode::Edit,
            input_buffer: Vec::new(),
            saved_row: 0,
            saved_col: 0,
            is_modified: false,
            cursor_visible: true,
            last_blink_ms: 0,
        };
        proof {
            assert(ed@ =~~= initial_model());
        }
        ed
    }

    /// Types one code point: into the document at the cursor in edit mode
    /// (marking the document modified), into the prompt buffer in prompt
    /// mode.
    pub fn insert_char(&mut self, c: char)
        requires
            old(self).wf(),
            old(self)@.mode is OpenFilePrompt ==> OPEN_FILE_MARGIN + old(self)@.prompt.len()
                < usize::MAX,
        ensures
            final(self)@ == step_insert_char(old(self)@, c),
            final(self).wf(),
            final(self).spec_modified() == (old(self)@.mode is Edit || old(self).spec_modified()),
            blink_unchanged(old(self), final(self)),
    {
        match self.mode {
            EditorMode::Edit => {
                self.doc.insert_code_point(self.buffer_row, self.buffer_col, c);
                self.buffer_col = self.buffer_col + 1;
                self.screen_col = if self.buffer_col < EDITOR_COLS - 1 {
                    self.buffer_col
                } else {
                    EDITOR_COLS - 1
                };
                self.is_modified = true;
            },
            EditorMode::OpenFilePrompt => {
                let pos = self.screen_col - OPEN_FILE_MARGIN;
                self.input_buffer.insert(pos, c);
                self.screen_col = self.screen_col + 1;
            },
        }
        proof {
            assert(self@ =~~= step_insert_char(old(self)@, c));
        }
    }

    /// Backspace in edit mode: deletes the code point before the cursor, or
    /// joins the current line onto the previous one when the cursor is at
    /// column 0. At the very start of the document it does nothing.
    pub fn backspace(&mut self)
        requires
            old(self).wf(),
            old(self)@.mode is Edit,
        ensures
            final(self)@ == step_backspace(old(self)@),
            final(self).wf(),
            old(self)@.buffer_col > 0 || old(self)@.buffer_row > 0
                ==> final(self).spec_modified(),
            old(self)@.buffer_col == 0 && old(self)@.buffer_row == 0
                ==> final(self).spec_modified() == old(self).spec_modified(),
            blink_unchanged(old(self), final(self)),
    {
        if self.buffer_col > 0 {
            self.doc.delete_code_point(self.buffer_row, self.buffer_col);
            self.buffer_col = self.buffer_col - 1;
            self.screen_col = if self.buffer_col < EDITOR_COLS - 1 {
                self.buffer_col
            } else {
                EDITOR_COLS - 1
            };
            self.is_modified = true;
        } else if self.buffer_row > 0 {
            let prev_len = self.doc.line_len(self.buffer_row - 1);
            self.doc.join_with_previous(self.buffer_row);
            self.buffer_row = self.buffer_row - 1;
            self.buffer_col = prev_len;
            self.screen_col = if prev_len < EDITOR_COLS - 1 {
                prev_len
            } else {
                EDITOR_COLS - 1
            };
            if self.screen_row > 0 {
                self.screen_row = self.screen_row - 1;
            }
            self.is_modified = true;
        }
        proof {
            assert(self@ =~~= step_backspace(old(self)@));
        }
    }

    /// Backspace while the open-file prompt is active: deletes the prompt
    /// character before the screen cursor. `offset` is the screen column
    /// where prompt input starts.
    pub fn backspace_buffer(&mut self, offset: usize)
        requires
            old(self).wf(),
            old(self)@.mode is OpenFilePrompt,
            offset == OPEN_FILE_MARGIN,
        ensures
            final(self)@ == step_backspace_prompt(old(self)@),
            final(self).wf(),
            final(self).spec_modified() == old(self).spec_modified(),
            blink_unchanged(old(self), final(self)),
    {
        if self.input_buffer.len() == 0 || self.screen_col == offset {
            return ;
        }
        let pos = self.screen_col - offset - 1;
        self.input_buffer.remove(pos);
        self.screen_col = self.screen_col - 1;
        proof {
            assert(self@ =~~= step_backspace_prompt(old(self)@));
        }
    }

    /// Splits the current line at the cursor and moves the cursor to the
    /// start of the new line; the screen cursor moves down one row when it
    /// is not already at the window bottom.
    pub fn insert_newline(&mut self)
        requires
            old(self).wf(),
            old(self)@.mode is Edit,
        ensures
            final(self)@ == step_insert_newline(old(self)@),
            final(self).wf(),
            final(self).spec_modified(),
            blink_unchanged(old(self), final(self)),
    {
        self.doc.split_line(self.buffer_row, self.buffer_col);
        self.buffer_row = self.buffer_row + 1;
        self.screen_row = if self.screen_row < EDITOR_ROWS - 1 {
            self.screen_row + 1
        } else {
            EDITOR_ROWS - 1
        };
        self.buffer_col = 0;
        self.screen_col = 0;
        self.is_modified = true;
        proof {
            assert(self@ =~~= step_insert_newline(old(self)@));
        }
    }

    /// Cursor left: one code point back, wrapping to the end of the
    /// previous line; in prompt mode, one character back within the prompt.
    pub fn move_cursor_left(&mut self)
        requires
            old(self).wf(),
        ensures
            final(self)@ == step_move_left(old(self)@),
            final(self).wf(),
            final(self).spec_modified() == old(self).spec_modified(),
            blink_unchanged(old(self), final(self)),
    {
        match self.mode {
            EditorMode::Edit => {
                if self.buffer_col > 0 {
                    self.buffer_col = self.buffer_col - 1;
                    self.screen_col = if self.buffer_col < EDITOR_COLS - 1 {
                        self.buffer_col
                    } else {
                        EDITOR_COLS - 1
                    };
                } else if self.buffer_row > 0 {
                    self.buffer_row = self.buffer_row - 1;
                    let len = self.doc.line_len(self.buffer_row);
                    self.buffer_col = len;
                    self.screen_col = if len < EDITOR_COLS - 1 {
                        len
                    } else {
                        EDITOR_COLS - 1
                    };
                    if self.screen_row > 0 {
                        self.screen_row = self.screen_row - 1;
                    }
                }
            },
            EditorMode::OpenFilePrompt => {
                if self.screen_col > OPEN_FILE_MARGIN {
                    self.screen_col = self.screen_col - 1;
                }
            },
        }
        proof {
            assert(self@ =~~= step_move_left(old(self)@));
        }
    }

    /// Cursor right: one code point forward, wrapping to the start of the
    /// next line; the screen column stops at the window's right edge. In
    /// prompt mode, one character forward within the prompt.
    pub fn move_cursor_right(&mut self)
        requires
            old(self).wf(),
            old(self)@.mode is OpenFilePrompt ==> OPEN_FILE_MARGIN + old(self)@.prompt.len()
                < usize::MAX,
        ensures
            final(self)@ == step_move_right(old(self)@),
            final(self).wf(),
            final(self).spec_modified() == old(self).spec_modified(),
            blink_unchanged(old(self), final(self)),
    {
        match self.mode {
            EditorMode::Edit => {
                let len = self.doc.line_len(self.buffer_row);
                if self.buffer_col < len {
                    self.buffer_col = self.buffer_col + 1;
                    if self.screen_col < EDITOR_COLS - 1 {
                        self.screen_col = self.screen_col + 1;
                    }
                } else {
                    let count = self.doc.line_count();
                    if self.buffer_row < count - 1 {
                        self.buffer_row = self.buffer_row + 1;
                        self.buffer_col = 0;
                        self.screen_col = 0;
                    }
                }
            },
            EditorMode::OpenFilePrompt => {
                if self.screen_col - OPEN_FILE_MARGIN < self.input_buffer.len() {
                    self.screen_col = self.screen_col + 1;
                }
            },
        }
        proof {
            assert(self@ =~~= step_move_right(old(self)@));
        }
    }

    /// Cursor up one line, clamping the column to the new line's length.
    /// The screen cursor follows, except that at the top margin row it
    /// holds steady while lines remain above the viewport, so the window
    /// scrolls instead. A no-op in prompt mode.
    pub fn move_cursor_up(&mut self)
        requires
            old(self).wf(),
        ensures
            final(self)@ == step_move_up(old(self)@),
            final(self).wf(),
            final(self).spec_modified() == old(self).spec_modified(),
            blink_unchanged(old(self), final(self)),
            final(self)@.mode is Edit ==> 0 <= final(self)@.screen_row < EDITOR_ROWS
                && final(self)@.buffer_row - final(self)@.screen_row >= 0,
    {
        match self.mode {
            EditorMode::Edit => {
                if self.buffer_row > 0 {
                    self.buffer_row = self.buffer_row - 1;
                    let len = self.doc.line_len(self.buffer_row);
                    if self.buffer_col > len {
                        self.buffer_col = len;
                    }
                    self.screen_col = if self.buffer_col < EDITOR_COLS - 1 {
                        self.buffer_col
                    } else {
                        EDITOR_COLS - 1
                    };
                    if self.screen_row > 0 && !(self.screen_row == SCROLL_MARGIN
                        && self.buffer_row > SCROLL_MARGIN) {
                        self.screen_row = self.screen_row - 1;
                    }
                }
            },
            EditorMode::OpenFilePrompt => {},
        }
        proof {
            assert(self@ =~~= step_move_up(old(self)@));
        }
    }

    /// Cursor down one line, clamping the column to the new line's length.
    /// The screen cursor follows, except that at the bottom margin row it
    /// holds steady while more lines remain below, so the window scrolls
    /// instead. A no-op in prompt mode and on the last line.
    pub fn move_cursor_down(&mut self)
        requires
            old(self).wf(),
        ensures
            final(self)@ == step_move_down(old(self)@),
            final(self).wf(),
            final(self).spec_modified() == old(self).spec_modified(),
            blink_unchanged(old(self), final(self)),
            final(self)@.mode is Edit ==> 0 <= final(self)@.screen_row < EDITOR_ROWS
                && final(self)@.buffer_row - final(self)@.screen_row >= 0,
    {
        match self.mode {
            EditorMode::Edit => {
                let count = self.doc.line_count();
                if self.buffer_row == count - 1 {
                    return ;
                }
                self.buffer_row = self.buffer_row + 1;
                let len = self.doc.line_len(self.buffer_row);
                if self.buffer_col > len {
                    self.buffer_col = len;
                }
                self.screen_col = if self.buffer_col < EDITOR_COLS - 1 {
                    self.buffer_col
                } else {
                    EDITOR_COLS - 1
                };
                if self.screen_row < EDITOR_ROWS - 1 && !(self.screen_row == EDITOR_ROWS
                    - SCROLL_MARGIN && count - self.buffer_row > SCROLL_MARGIN) {
                    self.screen_row = self.screen_row + 1;
                }
            },
            EditorMode::OpenFilePrompt => {},
        }
        proof {
            assert(self@ =~~= step_move_down(old(self)@));
        }
    }

    /// Home: the cursor jumps to the start of the line, or of the prompt.
    pub fn home(&mut self)
        requires
            old(self).wf(),
        ensures
            final(self)@ == step_home(old(self)@),
            final(self).wf(),
            final(self).spec_modified() == old(self).spec_modified(),
            blink_unchanged(old(self), final(self)),
    {
        match self.mode {
            EditorMode::Edit => {
                self.buffer_col = 0;
                self.screen_col = 0;
            },
            EditorMode::OpenFilePrompt => {
                self.screen_col = OPEN_FILE_MARGIN;
            },
        }
        proof {
            assert(self@ =~~= step_home(old(self)@));
        }
    }

    /// End: the cursor jumps to the end of the line, or of the prompt.
    pub fn end(&mut self)
        requires
            old(self).wf(),
            old(self)@.mode is OpenFilePrompt ==> OPEN_FILE_MARGIN + old(self)@.prompt.len()
                <= usize::MAX,
        ensures
            final(self)@ == step_end(old(self)@),
            final(self).wf(),
            final(self).spec_modified() == old(self).spec_modified(),
            blink_unchanged(old(self), final(self)),
    {
        match self.mode {
            EditorMode::Edit => {
                let len = self.doc.line_len(self.buffer_row);
                self.buffer_col = len;
                self.screen_col = if len < EDITOR_COLS - 1 {
                    len
                } else {
                    EDITOR_COLS - 1
                };
            },
            EditorMode::OpenFilePrompt => {
                self.screen_col = OPEN_FILE_MARGIN + self.input_buffer.len();
            },
        }
        proof {
            assert(self@ =~~= step_end(old(self)@));
        }
    }

    /// Opens the filename prompt: saves the screen cursor, clears the
    /// prompt buffer and moves the screen cursor to the prompt's input
    /// start on the status row. Does nothing if the prompt is already open.
    pub fn enter_open_prompt(&mut self)
        requires
            old(self).wf(),
        ensures
            final(self)@ == step_enter_prompt(old(self)@),
            final(self).wf(),
            final(self).spec_modified() == old(self).spec_modified(),
            blink_unchanged(old(self), final(self)),
    {
        match self.mode {
            EditorMode::Edit => {
                self.saved_col = self.screen_col;
                self.saved_row = self.screen_row;
                self.mode = EditorMode::OpenFilePrompt;
                self.input_buffer = Vec::new();
                self.screen_col = OPEN_FILE_MARGIN;
                self.screen_row = EDITOR_ROWS;
            },
            EditorMode::OpenFilePrompt => {},
        }
        proof {
            assert(self@ =~~= step_enter_prompt(old(self)@));
        }
    }

    /// Cancels the filename prompt: back to edit mode, the saved screen
    /// cursor restored and the prompt text discarded. The document is
    /// untouched. Does nothing in edit mode.
    pub fn cancel_prompt(&mut self)
        requires
            old(self).wf(),
        ensures
            final(self)@ == step_cancel_prompt(old(self)@),
            final(self).wf(),
            final(self).spec_modified() == old(self).spec_modified(),
            blink_unchanged(old(self), final(self)),
    {
        match self.mode {
            EditorMode::Edit => {},
            EditorMode::OpenFilePrompt => {
                self.mode = EditorMode::Edit;
                self.screen_col = self.saved_col;
                self.screen_row = self.saved_row;
                self.input_buffer = Vec::new();
            },
        }
        proof {
            assert(self@ =~~= step_cancel_prompt(old(self)@));
        }
    }

    /// Confirms the filename prompt: leaves prompt mode exactly as
    /// cancelling does and hands back the typed filename. The caller
    /// attempts the load and, on success, calls `load_lines`; on failure
    /// the editor simply stays in edit mode with its document unchanged.
    pub fn confirm_prompt(&mut self) -> (filename: Vec<char>)
        requires
            old(self).wf(),
        ensures
            final(self)@ == step_confirm_prompt(old(self)@),
            final(self).wf(),
            final(self).spec_modified() == old(self).spec_modified(),
            blink_unchanged(old(self), final(self)),
            old(self)@.mode is OpenFilePrompt ==> filename@ == old(self)@.prompt,
            old(self)@.mode is Edit ==> filename@ == Seq::<char>::empty(),
    {
        let mut filename: Vec<char> = Vec::new();
        match self.mode {
            EditorMode::Edit => {},
            EditorMode::OpenFilePrompt => {
                core::mem::swap(&mut filename, &mut self.input_buffer);
                self.mode = EditorMode::Edit;
                self.screen_col = self.saved_col;
                self.screen_row = self.saved_row;
            },
        }
        proof {
            assert(self@ =~~= step_confirm_prompt(old(self)@));
        }
        filename
    }

    /// Replaces the document with freshly loaded content (an empty load
    /// leaves one empty line) and resets the editor to a clean edit state
    /// with the cursor at the origin and the dirty flag cleared.
    pub fn load_lines(&mut self, new_lines: Vec<Vec<char>>)
        requires
            old(self).wf(),
        ensures
            final(self)@ == step_load(old(self)@, lines_view(new_lines)),
            final(self).wf(),
            !final(self).spec_modified(),
            blink_unchanged(old(self), final(self)),
    {
        self.doc.replace_all(new_lines);
        self.buffer_row = 0;
        self.buffer_col = 0;
        self.screen_row = 0;
        self.screen_col = 0;
        self.mode = EditorMode::Edit;
        self.input_buffer = Vec::new();
        self.saved_row = 0;
        self.saved_col = 0;
        self.is_modified = false;
        proof {
            assert(self@ =~~= step_load(old(self)@, lines_view(new_lines)));
        }
    }

    /// A display-refresh tick at wall-clock time `now_ms`: toggles the
    /// cursor-blink visibility once at least half a second has passed since
    /// the last toggle. Purely cosmetic; the rest of the state is untouched.
    pub fn tick(&mut self, now_ms: u64)
        requires
            old(self).wf(),
        ensures
            final(self)@ == old(self)@,
            final(self).wf(),
            final(self).spec_modified() == old(self).spec_modified(),
            now_ms >= old(self).spec_blink_last() + 500 ==> {
                &&& final(self).spec_blink_visible() == !old(self).spec_blink_visible()
                &&& final(self).spec_blink_last() == now_ms
            },
            now_ms < old(self).spec_blink_last() + 500 ==> blink_unchanged(old(self), final(self)),
    {
        if now_ms >= self.last_blink_ms && now_ms - self.last_blink_ms >= 500 {
            self.cursor_visible = !self.cursor_visible;
            self.last_blink_ms = now_ms;
        }
    }

    /// The range of buffer rows inside the window: from the viewport top to
    /// one past the last visible line.
    pub fn visible_range(&self) -> (r: (usize, usize))
        requires
            self.wf(),
        ensures
            r.0 == view_top(self@),
            r.1 == view_end(self@),
    {
        let start = if self.buffer_row >= self.screen_row {
            self.buffer_row - self.screen_row
        } else {
            0
        };
        let count = self.doc.line_count();
        let end = if count - start > EDITOR_ROWS {
            start + EDITOR_ROWS
        } else {
            count
        };
        (start, end)
    }

    /// The logical cursor, as (row, column).
    pub fn buffer_position(&self) -> (p: (usize, usize))
        ensures
            p.0 == self@.buffer_row,
            p.1 == self@.buffer_col,
    {
        (self.buffer_row, self.buffer_col)
    }

    /// The screen cursor, as (row, column).
    pub fn screen_position(&self) -> (p: (usize, usize))
        ensures
            p.0 == self@.screen_row,
            p.1 == self@.screen_col,
    {
        (self.screen_row, self.screen_col)
    }

    /// The current input mode.
    pub fn mode(&self) -> (m: EditorMode)
        ensures
            m == self@.mode,
    {
        self.mode
    }

    /// How many lines the document holds.
    pub fn line_count(&self) -> (n: usize)
        ensures
            n == self@.lines.len(),
    {
        self.doc.line_count()
    }

    /// The number of code points in line `row`.
    pub fn line_len(&self, row: usize) -> (n: usize)
        requires
            row < self@.lines.len(),
        ensures
            n == self@.lines[row as int].len(),
    {
        self.doc.line_len(row)
    }

    /// Read access to line `row`, for rendering.
    pub fn line(&self, row: usize) -> (l: &Vec<char>)
        requires
            row < self@.lines.len(),
        ensures
            l@ == self@.lines[row as int],
    {
        self.doc.line(row)
    }

    /// Read access to the prompt buffer, for the status line.
    pub fn prompt_text(&self) -> (p: &Vec<char>)
        ensures
            p@ == self@.prompt,
    {
        &self.input_buffer
    }

    /// Whether the document has unsaved changes.
    pub fn is_modified(&self) -> (b: bool)
        ensures
            b == self.spec_modified(),
    {
        self.is_modified
    }

    /// Whether the blinking cursor is currently shown.
    pub fn cursor_visible(&self) -> (b: bool)
        ensures
            b == self.spec_blink_visible(),
    {
        self.cursor_visible
    }
}

} // verus!
