use eva_editor::editor::{Buffer, Cursor, Editor};

#[test]
fn new_buffer_is_empty() {
    let buffer = Buffer::new();
    assert_eq!(buffer.content, "");
    assert!(buffer.file_path.is_none());
    assert!(!buffer.modified);
}

#[test]
fn from_file_records_association() {
    let buffer = Buffer::from_file(String::from("notes.txt"), String::from("hello"));
    assert_eq!(buffer.content, "hello");
    assert_eq!(buffer.file_path.as_deref(), Some("notes.txt"));
    assert!(!buffer.modified);
}

#[test]
fn insert_splices_at_position() {
    let mut buffer = Buffer::new();
    buffer.insert(0, "ad");
    assert_eq!(buffer.content, "ad");
    buffer.insert(1, "bc");
    assert_eq!(buffer.content, "abcd");
    assert!(buffer.modified);
}

#[test]
fn insert_at_end_appends() {
    let mut buffer = Buffer::new();
    buffer.insert(0, "ab");
    buffer.insert(2, "cd");
    assert_eq!(buffer.content, "abcd");
}

#[test]
fn insert_out_of_range_is_ignored() {
    let mut buffer = Buffer::new();
    buffer.insert(0, "ab");
    buffer.mark_saved();
    buffer.insert(3, "x");
    assert_eq!(buffer.content, "ab");
    assert!(!buffer.modified);
}

#[test]
fn delete_removes_half_open_range() {
    let mut buffer = Buffer::new();
    buffer.insert(0, "abcd");
    buffer.delete(1, 3);
    assert_eq!(buffer.content, "ad");
    assert!(buffer.modified);
}

#[test]
fn delete_out_of_range_is_ignored() {
    let mut buffer = Buffer::new();
    buffer.insert(0, "ab");
    buffer.mark_saved();
    buffer.delete(1, 3);
    assert_eq!(buffer.content, "ab");
    assert!(!buffer.modified);
    buffer.delete(1, 1);
    assert_eq!(buffer.content, "ab");
    assert!(!buffer.modified);
    buffer.delete(2, 1);
    assert_eq!(buffer.content, "ab");
    assert!(!buffer.modified);
}

#[test]
fn insert_then_delete_restores_content() {
    let mut buffer = Buffer::new();
    buffer.insert(0, "hello");
    buffer.insert(2, "XYZ");
    assert_eq!(buffer.content, "heXYZllo");
    buffer.delete(2, 5);
    assert_eq!(buffer.content, "hello");
}

#[test]
fn mark_saved_clears_modified() {
    let mut buffer = Buffer::new();
    buffer.insert(0, "x");
    assert!(buffer.modified);
    buffer.mark_saved();
    assert!(!buffer.modified);
    assert_eq!(buffer.content, "x");
}

#[test]
fn default_cursor_is_at_origin() {
    let cursor = Cursor::default();
    assert_eq!(cursor.position, 0);
    assert_eq!(cursor.line, 0);
    assert_eq!(cursor.column, 0);
}

#[test]
fn new_editor_has_one_empty_buffer() {
    let editor = Editor::new();
    assert_eq!(editor.buffers.len(), 1);
    assert_eq!(editor.active_buffer, 0);
    assert_eq!(editor.buffers[0].content, "");
    assert_eq!(editor.cursor.position, 0);
}

#[test]
fn open_file_switches_to_new_buffer() {
    let mut editor = Editor::new();
    editor.open_file(String::from("a.txt"), String::from("xyz"));
    assert_eq!(editor.buffers.len(), 2);
    assert_eq!(editor.active_buffer, 1);
    let active = editor.get_active_buffer().expect("active buffer");
    assert_eq!(active.content, "xyz");
    assert_eq!(active.file_path.as_deref(), Some("a.txt"));
}

#[test]
fn get_active_buffer_none_when_index_out_of_range() {
    let mut editor = Editor::new();
    editor.active_buffer = 7;
    assert!(editor.get_active_buffer().is_none());
}

#[test]
fn cursor_line_and_column_after_move() {
    let mut editor = Editor::new();
    editor.insert_text("ab\ncd");
    editor.move_cursor(4);
    assert_eq!(editor.cursor.position, 4);
    assert_eq!(editor.cursor.line, 1);
    assert_eq!(editor.cursor.column, 1);
}

#[test]
fn cursor_columns_across_whole_content() {
    let mut editor = Editor::new();
    editor.insert_text("ab\ncd");
    let expected = [(0, 0, 0), (1, 0, 1), (2, 0, 2), (3, 1, 0), (4, 1, 1), (5, 1, 2)];
    for (position, line, column) in expected {
        editor.move_cursor(position);
        assert_eq!(editor.cursor.position, position);
        assert_eq!(editor.cursor.line, line);
        assert_eq!(editor.cursor.column, column);
    }
}

#[test]
fn move_cursor_past_end_is_ignored() {
    let mut editor = Editor::new();
    editor.insert_text("ab");
    editor.move_cursor(1);
    editor.move_cursor(9);
    assert_eq!(editor.cursor.position, 1);
    assert_eq!(editor.cursor.line, 0);
    assert_eq!(editor.cursor.column, 1);
}

#[test]
fn insert_text_advances_cursor() {
    let mut editor = Editor::new();
    editor.insert_text("ab");
    editor.move_cursor(0);
    editor.insert_text("X");
    let active = editor.get_active_buffer().expect("active buffer");
    assert_eq!(active.content, "Xab");
    assert_eq!(editor.cursor.position, 1);
}

#[test]
fn insert_empty_text_leaves_cursor() {
    let mut editor = Editor::new();
    editor.insert_text("ab");
    editor.move_cursor(1);
    editor.insert_text("");
    let active = editor.get_active_buffer().expect("active buffer");
    assert_eq!(active.content, "ab");
    assert_eq!(editor.cursor.position, 1);
}

#[test]
fn delete_backward_removes_before_cursor() {
    let mut editor = Editor::new();
    editor.insert_text("ab");
    editor.delete_text(2);
    let active = editor.get_active_buffer().expect("active buffer");
    assert_eq!(active.content, "");
    assert_eq!(editor.cursor.position, 0);
}

#[test]
fn delete_backward_clamps_to_start() {
    let mut editor = Editor::new();
    editor.insert_text("ab");
    editor.move_cursor(1);
    editor.delete_text(5);
    let active = editor.get_active_buffer().expect("active buffer");
    assert_eq!(active.content, "b");
    assert_eq!(editor.cursor.position, 0);
}

#[test]
fn delete_backward_of_zero_keeps_content() {
    let mut editor = Editor::new();
    editor.insert_text("ab");
    editor.delete_text(0);
    let active = editor.get_active_buffer().expect("active buffer");
    assert_eq!(active.content, "ab");
    assert_eq!(editor.cursor.position, 2);
}

#[test]
fn edits_follow_line_breaks() {
    let mut editor = Editor::new();
    editor.insert_text("one\ntwo");
    assert_eq!(editor.cursor.position, 7);
    assert_eq!(editor.cursor.line, 1);
    assert_eq!(editor.cursor.column, 3);
    editor.delete_text(3);
    let active = editor.get_active_buffer().expect("active buffer");
    assert_eq!(active.content, "one\n");
    assert_eq!(editor.cursor.position, 4);
    assert_eq!(editor.cursor.line, 1);
    assert_eq!(editor.cursor.column, 0);
}
