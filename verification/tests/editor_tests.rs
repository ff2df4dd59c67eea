use wfemto::editor::TextEditor;
use wfemto::model::EditorMode;
use wfemto::model::EDITOR_COLS;
use wfemto::model::EDITOR_ROWS;
use wfemto::model::OPEN_FILE_MARGIN;

fn to_lines(strs: &[&str]) -> Vec<Vec<char>> {
    strs.iter().map(|s| s.chars().collect()).collect()
}

fn line_string(ed: &TextEditor, row: usize) -> String {
    ed.line(row).iter().collect()
}

fn type_str(ed: &mut TextEditor, s: &str) {
    for c in s.chars() {
        ed.insert_char(c);
    }
}

#[test]
fn new_editor_starts_empty() {
    let ed = TextEditor::new();
    assert_eq!(ed.line_count(), 1);
    assert_eq!(ed.line_len(0), 0);
    assert_eq!(ed.buffer_position(), (0, 0));
    assert_eq!(ed.screen_position(), (0, 0));
    assert_eq!(ed.mode(), EditorMode::Edit);
    assert!(!ed.is_modified());
    assert!(ed.cursor_visible());
}

#[test]
fn insert_chars_build_line() {
    let mut ed = TextEditor::new();
    type_str(&mut ed, "hello");
    assert_eq!(line_string(&ed, 0), "hello");
    assert_eq!(ed.buffer_position(), (0, 5));
    assert_eq!(ed.screen_position(), (0, 5));
    assert!(ed.is_modified());
}

#[test]
fn insert_mid_line_shifts_tail() {
    let mut ed = TextEditor::new();
    type_str(&mut ed, "held");
    ed.move_cursor_left();
    ed.move_cursor_left();
    ed.insert_char('l');
    assert_eq!(line_string(&ed, 0), "helld");
    assert_eq!(ed.buffer_position(), (0, 3));
}

// The concrete scenario: from ["hello", "world"] with the cursor at (0, 5),
// typing '!' makes line 0 "hello!" with the cursor at column 6; a newline
// gives ["hello!", "", "world"] with the cursor at (1, 0); a backspace
// reverts to ["hello!", "world"] with the cursor at (0, 6).
#[test]
fn scenario_insert_newline_backspace() {
    let mut ed = TextEditor::new();
    ed.load_lines(to_lines(&["hello", "world"]));
    for _ in 0..5 {
        ed.move_cursor_right();
    }
    assert_eq!(ed.buffer_position(), (0, 5));
    ed.insert_char('!');
    assert_eq!(line_string(&ed, 0), "hello!");
    assert_eq!(ed.buffer_position(), (0, 6));
    ed.insert_newline();
    assert_eq!(ed.line_count(), 3);
    assert_eq!(line_string(&ed, 0), "hello!");
    assert_eq!(line_string(&ed, 1), "");
    assert_eq!(line_string(&ed, 2), "world");
    assert_eq!(ed.buffer_position(), (1, 0));
    ed.backspace();
    assert_eq!(ed.line_count(), 2);
    assert_eq!(line_string(&ed, 0), "hello!");
    assert_eq!(line_string(&ed, 1), "world");
    assert_eq!(ed.buffer_position(), (0, 6));
}

// Concrete instance of the insert/backspace round trip: typing a run of
// code points and backspacing as many times restores document and cursor.
#[test]
fn insert_then_equal_backspaces_restore_state() {
    let mut ed = TextEditor::new();
    ed.load_lines(to_lines(&["abc", "def"]));
    ed.move_cursor_down();
    ed.move_cursor_right();
    assert_eq!(ed.buffer_position(), (1, 1));
    type_str(&mut ed, "xyz");
    assert_eq!(line_string(&ed, 1), "dxyzef");
    for _ in 0..3 {
        ed.backspace();
    }
    assert_eq!(line_string(&ed, 0), "abc");
    assert_eq!(line_string(&ed, 1), "def");
    assert_eq!(ed.line_count(), 2);
    assert_eq!(ed.buffer_position(), (1, 1));
}

#[test]
fn backspace_at_origin_is_noop() {
    let mut ed = TextEditor::new();
    ed.load_lines(to_lines(&["abc"]));
    ed.backspace();
    assert_eq!(line_string(&ed, 0), "abc");
    assert_eq!(ed.buffer_position(), (0, 0));
    assert!(!ed.is_modified());
}

#[test]
fn backspace_at_column_zero_joins_lines() {
    let mut ed = TextEditor::new();
    ed.load_lines(to_lines(&["ab", "cd"]));
    ed.move_cursor_down();
    assert_eq!(ed.buffer_position(), (1, 0));
    ed.backspace();
    assert_eq!(ed.line_count(), 1);
    assert_eq!(line_string(&ed, 0), "abcd");
    assert_eq!(ed.buffer_position(), (0, 2));
    assert!(ed.is_modified());
}

// Concrete instance of the up/down round trip without clamping: the line
// above is long enough, so the cursor returns exactly.
#[test]
fn move_up_down_round_trip_exact() {
    let mut ed = TextEditor::new();
    ed.load_lines(to_lines(&["xyzw", "abc"]));
    ed.move_cursor_down();
    for _ in 0..3 {
        ed.move_cursor_right();
    }
    assert_eq!(ed.buffer_position(), (1, 3));
    ed.move_cursor_up();
    assert_eq!(ed.buffer_position(), (0, 3));
    ed.move_cursor_down();
    assert_eq!(ed.buffer_position(), (1, 3));
}

// Concrete instance of the up/down round trip with clamping: an empty
// intervening line clamps the column to its length.
#[test]
fn move_up_down_round_trip_clamped() {
    let mut ed = TextEditor::new();
    ed.load_lines(to_lines(&["", "abc"]));
    ed.move_cursor_down();
    ed.end();
    assert_eq!(ed.buffer_position(), (1, 3));
    ed.move_cursor_up();
    assert_eq!(ed.buffer_position(), (0, 0));
    ed.move_cursor_down();
    assert_eq!(ed.buffer_position(), (1, 0));
}

#[test]
fn move_up_at_top_and_down_at_bottom_are_noops() {
    let mut ed = TextEditor::new();
    ed.load_lines(to_lines(&["a", "b"]));
    ed.move_cursor_up();
    assert_eq!(ed.buffer_position(), (0, 0));
    ed.move_cursor_down();
    ed.move_cursor_down();
    assert_eq!(ed.buffer_position(), (1, 0));
    assert_eq!(ed.screen_position().0, 1);
}

#[test]
fn move_left_and_right_wrap_across_lines() {
    let mut ed = TextEditor::new();
    ed.load_lines(to_lines(&["ab", "cd"]));
    ed.end();
    assert_eq!(ed.buffer_position(), (0, 2));
    ed.move_cursor_right();
    assert_eq!(ed.buffer_position(), (1, 0));
    ed.move_cursor_left();
    assert_eq!(ed.buffer_position(), (0, 2));
}

#[test]
fn screen_column_stops_at_right_edge() {
    let mut ed = TextEditor::new();
    let long_line: String = std::iter::repeat('x').take(100).collect();
    ed.load_lines(to_lines(&[&long_line]));
    for _ in 0..85 {
        ed.move_cursor_right();
    }
    assert_eq!(ed.buffer_position(), (0, 85));
    assert_eq!(ed.screen_position().1, EDITOR_COLS - 1);
    ed.move_cursor_left();
    assert_eq!(ed.buffer_position(), (0, 84));
    assert_eq!(ed.screen_position().1, EDITOR_COLS - 1);
}

#[test]
fn home_and_end_jump_within_line() {
    let mut ed = TextEditor::new();
    ed.load_lines(to_lines(&["hello"]));
    ed.end();
    assert_eq!(ed.buffer_position(), (0, 5));
    assert_eq!(ed.screen_position().1, 5);
    ed.home();
    assert_eq!(ed.buffer_position(), (0, 0));
    assert_eq!(ed.screen_position().1, 0);
}

// The concrete scroll scenario: in a 40-line document, 35 downward moves
// from row 0 leave the cursor on buffer row 35 with the screen row held in
// the bottom hysteresis band, and the visible range ends at
// min(viewport_top + 32, 40).
#[test]
fn scenario_scroll_hysteresis_down() {
    let mut ed = TextEditor::new();
    let lines: Vec<String> = (0..40).map(|i| format!("line{}", i)).collect();
    let refs: Vec<&str> = lines.iter().map(|s| s.as_str()).collect();
    ed.load_lines(to_lines(&refs));
    for _ in 0..35 {
        ed.move_cursor_down();
    }
    assert_eq!(ed.buffer_position().0, 35);
    let screen_row = ed.screen_position().0;
    assert_eq!(screen_row, 28);
    assert!(screen_row <= EDITOR_ROWS - 1);
    assert!(screen_row >= EDITOR_ROWS - 5);
    let (top, end) = ed.visible_range();
    assert_eq!(top, 35 - 28);
    assert_eq!(end, (top + 32).min(40));
    assert_eq!(end, 39);
}

// Scrolling back up: the screen row descends to the top hysteresis band and
// holds there while lines remain above the viewport; the viewport top never
// goes negative.
#[test]
fn scenario_scroll_hysteresis_up() {
    let mut ed = TextEditor::new();
    let lines: Vec<String> = (0..40).map(|i| format!("line{}", i)).collect();
    let refs: Vec<&str> = lines.iter().map(|s| s.as_str()).collect();
    ed.load_lines(to_lines(&refs));
    for _ in 0..35 {
        ed.move_cursor_down();
    }
    for _ in 0..30 {
        ed.move_cursor_up();
        let (brow, _) = ed.buffer_position();
        let (srow, _) = ed.screen_position();
        assert!(srow <= EDITOR_ROWS - 1);
        assert!(brow >= srow);
    }
    assert_eq!(ed.buffer_position().0, 5);
    assert_eq!(ed.screen_position().0, 4);
}

// Concrete instance of the prompt round trip: entering the open-file
// prompt and cancelling leaves the document untouched and restores the
// exact prior screen cursor.
#[test]
fn prompt_cancel_restores_screen_cursor() {
    let mut ed = TextEditor::new();
    ed.load_lines(to_lines(&["abc", "defg"]));
    ed.move_cursor_down();
    for _ in 0..2 {
        ed.move_cursor_right();
    }
    let before_screen = ed.screen_position();
    let before_buffer = ed.buffer_position();
    ed.enter_open_prompt();
    assert_eq!(ed.mode(), EditorMode::OpenFilePrompt);
    assert_eq!(ed.screen_position(), (EDITOR_ROWS, OPEN_FILE_MARGIN));
    type_str(&mut ed, "notes.txt");
    assert_eq!(ed.prompt_text().iter().collect::<String>(), "notes.txt");
    ed.cancel_prompt();
    assert_eq!(ed.mode(), EditorMode::Edit);
    assert_eq!(ed.screen_position(), before_screen);
    assert_eq!(ed.buffer_position(), before_buffer);
    assert_eq!(ed.line_count(), 2);
    assert_eq!(line_string(&ed, 0), "abc");
    assert_eq!(line_string(&ed, 1), "defg");
    assert_eq!(ed.prompt_text().len(), 0);
}

#[test]
fn prompt_confirm_returns_typed_filename() {
    let mut ed = TextEditor::new();
    type_str(&mut ed, "hi");
    ed.enter_open_prompt();
    type_str(&mut ed, "f.txt");
    let filename = ed.confirm_prompt();
    assert_eq!(filename.iter().collect::<String>(), "f.txt");
    assert_eq!(ed.mode(), EditorMode::Edit);
    assert_eq!(line_string(&ed, 0), "hi");
    assert_eq!(ed.prompt_text().len(), 0);
}

#[test]
fn prompt_editing_works_on_prompt_buffer() {
    let mut ed = TextEditor::new();
    ed.enter_open_prompt();
    type_str(&mut ed, "abc");
    assert_eq!(ed.screen_position().1, OPEN_FILE_MARGIN + 3);
    ed.move_cursor_left();
    ed.backspace_buffer(OPEN_FILE_MARGIN);
    assert_eq!(ed.prompt_text().iter().collect::<String>(), "ac");
    assert_eq!(ed.screen_position().1, OPEN_FILE_MARGIN + 1);
    ed.home();
    assert_eq!(ed.screen_position().1, OPEN_FILE_MARGIN);
    ed.backspace_buffer(OPEN_FILE_MARGIN);
    assert_eq!(ed.prompt_text().iter().collect::<String>(), "ac");
    ed.end();
    assert_eq!(ed.screen_position().1, OPEN_FILE_MARGIN + 2);
    ed.move_cursor_right();
    assert_eq!(ed.screen_position().1, OPEN_FILE_MARGIN + 2);
    ed.move_cursor_up();
    ed.move_cursor_down();
    assert_eq!(ed.screen_position(), (EDITOR_ROWS, OPEN_FILE_MARGIN + 2));
}

#[test]
fn load_resets_cursor_and_dirty_flag() {
    let mut ed = TextEditor::new();
    type_str(&mut ed, "scratch");
    assert!(ed.is_modified());
    ed.load_lines(to_lines(&["one", "two"]));
    assert!(!ed.is_modified());
    assert_eq!(ed.buffer_position(), (0, 0));
    assert_eq!(ed.screen_position(), (0, 0));
    assert_eq!(ed.line_count(), 2);
    assert_eq!(line_string(&ed, 0), "one");
}

#[test]
fn load_empty_keeps_one_blank_line() {
    let mut ed = TextEditor::new();
    type_str(&mut ed, "x");
    ed.load_lines(Vec::new());
    assert_eq!(ed.line_count(), 1);
    assert_eq!(ed.line_len(0), 0);
}

#[test]
fn visible_range_of_short_document() {
    let mut ed = TextEditor::new();
    ed.load_lines(to_lines(&["a", "b", "c"]));
    assert_eq!(ed.visible_range(), (0, 3));
}

#[test]
fn tick_toggles_blink_after_half_second() {
    let mut ed = TextEditor::new();
    assert!(ed.cursor_visible());
    ed.tick(499);
    assert!(ed.cursor_visible());
    ed.tick(500);
    assert!(!ed.cursor_visible());
    ed.tick(999);
    assert!(!ed.cursor_visible());
    ed.tick(1000);
    assert!(ed.cursor_visible());
}
