use rockbot_tui::editor::{char_width, EditContextFileState};

fn editor(content: &str) -> EditContextFileState {
    EditContextFileState::new("main".to_string(), "SOUL.md".to_string(), content.to_string())
}

#[test]
fn new_editor_state() {
    let e = editor("");
    assert!(e.is_new_file);
    assert!(!e.is_dirty);
    assert_eq!(e.line_count(), 1);
    let e = editor("a\nb\nc");
    assert!(!e.is_new_file);
    assert_eq!(e.line_count(), 3);
    assert_eq!(e.lines(), vec!["a".to_string(), "b".to_string(), "c".to_string()]);
}

#[test]
fn cursor_byte_position_clamps_to_line() {
    let mut e = editor("ab\ncd");
    e.cursor_line = 1;
    e.cursor_col = 1;
    assert_eq!(e.cursor_byte_position(), 4);
    e.cursor_col = 9;
    assert_eq!(e.cursor_byte_position(), 5);
    e.cursor_line = 7;
    assert_eq!(e.cursor_byte_position(), 5);
}

#[test]
fn insert_and_delete_characters() {
    let mut e = editor("ab\ncd");
    e.cursor_line = 1;
    e.cursor_col = 1;
    e.insert_char('X');
    assert_eq!(e.content, "ab\ncXd");
    assert_eq!(e.cursor_col, 2);
    assert!(e.is_dirty);
    e.delete_char();
    assert_eq!(e.content, "ab\ncd");
    assert_eq!(e.cursor_col, 1);
}

#[test]
fn newline_insert_and_join() {
    let mut e = editor("abcd");
    e.cursor_col = 2;
    e.insert_char('\n');
    assert_eq!(e.content, "ab\ncd");
    assert_eq!((e.cursor_line, e.cursor_col), (1, 0));
    e.delete_char();
    assert_eq!(e.content, "abcd");
    assert_eq!((e.cursor_line, e.cursor_col), (0, 4));
}

#[test]
fn delete_at_start_does_nothing() {
    let mut e = editor("abc");
    e.delete_char();
    assert_eq!(e.content, "abc");
    assert!(!e.is_dirty);
}

#[test]
fn multibyte_characters_use_byte_columns() {
    assert_eq!(char_width('a'), 1);
    assert_eq!(char_width('é'), 2);
    assert_eq!(char_width('€'), 3);
    assert_eq!(char_width('😀'), 4);
    let mut e = editor("é");
    e.cursor_col = 2;
    e.delete_char();
    assert_eq!(e.content, "");
    assert_eq!(e.cursor_col, 1);
}

#[test]
fn cursor_moves_between_lines() {
    let mut e = editor("abc\nd");
    e.cursor_col = 3;
    e.cursor_down();
    assert_eq!((e.cursor_line, e.cursor_col), (1, 1));
    e.cursor_right();
    assert_eq!((e.cursor_line, e.cursor_col), (1, 1));
    e.cursor_left();
    e.cursor_left();
    assert_eq!((e.cursor_line, e.cursor_col), (0, 3));
    e.cursor_right();
    assert_eq!((e.cursor_line, e.cursor_col), (1, 0));
    e.cursor_up();
    assert_eq!((e.cursor_line, e.cursor_col), (0, 0));
}

#[test]
fn scroll_follows_cursor() {
    let mut e = editor("1\n2\n3\n4\n5\n6");
    e.cursor_line = 5;
    e.ensure_cursor_visible(3);
    assert_eq!(e.scroll_offset, 3);
    e.cursor_line = 1;
    e.ensure_cursor_visible(3);
    assert_eq!(e.scroll_offset, 1);
    e.ensure_cursor_visible(0);
    assert_eq!(e.scroll_offset, 1);
}

#[test]
fn newline_then_backspace_at_line_end_restores_all() {
    let mut e = editor("ab\ncd");
    e.cursor_line = 0;
    e.cursor_col = 2;
    e.insert_char('\n');
    assert_eq!((e.cursor_line, e.cursor_col), (1, 0));
    e.delete_char();
    assert_eq!(e.content, "ab\ncd");
    assert_eq!((e.cursor_line, e.cursor_col), (0, 2));
}

#[test]
fn newline_then_backspace_mid_line_restores_text_only() {
    let mut e = editor("abcd");
    e.cursor_line = 0;
    e.cursor_col = 1;
    e.insert_char('\n');
    e.delete_char();
    assert_eq!(e.content, "abcd");
    assert_eq!((e.cursor_line, e.cursor_col), (0, 4));
}
