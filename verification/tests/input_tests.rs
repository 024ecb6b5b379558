use doum_cli::input_state::InputApp;

#[test]
fn test_editor_starts_with_default_and_cursor_at_end() {
    let app = InputApp::new("Name", Some("abc"), None);
    assert_eq!(app.text(), "abc");
    assert_eq!(app.cursor_position, 3);
    assert_eq!(app.prompt, "Name");
    assert!(app.help.is_none());
}

#[test]
fn test_editor_insert_in_the_middle() {
    let mut app = InputApp::new("p", Some("ac"), None);
    app.move_cursor_left();
    app.enter_char('b');
    assert_eq!(app.text(), "abc");
    assert_eq!(app.cursor_position, 2);
}

#[test]
fn test_editor_delete_before_cursor() {
    let mut app = InputApp::new("p", Some("abc"), None);
    app.delete_char();
    assert_eq!(app.text(), "ab");
    assert_eq!(app.cursor_position, 2);
}

#[test]
fn test_editor_delete_at_start_is_a_no_op() {
    let mut app = InputApp::new("p", Some("abc"), None);
    app.move_cursor_left();
    app.move_cursor_left();
    app.move_cursor_left();
    app.move_cursor_left();
    assert_eq!(app.cursor_position, 0);
    app.delete_char();
    assert_eq!(app.text(), "abc");
}

#[test]
fn test_editor_cursor_clamps_at_the_end() {
    let mut app = InputApp::new("p", Some("ab"), Some("type here"));
    app.move_cursor_right();
    app.move_cursor_right();
    assert_eq!(app.cursor_position, 2);
    assert_eq!(app.help.as_deref(), Some("type here"));
}
