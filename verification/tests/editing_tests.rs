use kuu::app::{App, AppMode};
use kuu::buff::Buffer;
use kuu::history::EditAction;

fn app_with(lines: &[&str]) -> App {
    let mut a = App::new("/tmp".to_string());
    a.buffer = Buffer::from_lines(lines.iter().map(|s| s.to_string()).collect());
    a
}

fn lines(a: &App) -> Vec<String> {
    a.buffer.lines.clone()
}

#[test]
fn typing_inserts_and_moves_the_cursor() {
    let mut a = app_with(&["ac"]);
    a.cursor_x = 1;
    a.insert_char('b');
    assert_eq!(lines(&a), vec!["abc".to_string()]);
    assert_eq!(a.cursor_x, 2);
    assert!(a.is_buffer_modified());
}

#[test]
fn undo_restores_typed_text_and_redo_reapplies() {
    let mut a = app_with(&["x"]);
    a.insert_char('a');
    a.insert_char('b');
    assert_eq!(lines(&a), vec!["abx".to_string()]);
    a.undo();
    assert_eq!(lines(&a), vec!["x".to_string()]);
    assert_eq!(a.status_message.as_deref(), Some("Undo"));
    a.redo();
    assert_eq!(lines(&a), vec!["abx".to_string()]);
    assert_eq!(a.status_message.as_deref(), Some("Redo"));
}

#[test]
fn undo_with_empty_history_reports_it() {
    let mut a = app_with(&["x"]);
    a.undo();
    assert_eq!(a.status_message.as_deref(), Some("Already at oldest change"));
    a.redo();
    assert_eq!(a.status_message.as_deref(), Some("Already at newest change"));
    assert_eq!(lines(&a), vec!["x".to_string()]);
}

#[test]
fn a_group_is_undone_as_one() {
    let mut a = app_with(&[""]);
    a.history.start_group();
    a.insert_char('h');
    a.insert_char('i');
    a.history.finish_group();
    assert_eq!(lines(&a), vec!["hi".to_string()]);
    a.undo();
    assert_eq!(lines(&a), vec![String::new()]);
}

#[test]
fn newline_splits_and_undo_removes_the_new_line() {
    let mut a = app_with(&["abcd"]);
    a.cursor_x = 2;
    a.insert_newline();
    assert_eq!(lines(&a), vec!["ab".to_string(), "cd".to_string()]);
    assert_eq!((a.cursor_x, a.cursor_y), (0, 1));
    a.undo();
    assert_eq!(lines(&a), vec!["cd".to_string()]);
    assert_eq!((a.cursor_x, a.cursor_y), (2, 0));
}

#[test]
fn delete_char_at_line_end_joins_the_next_line() {
    let mut a = app_with(&["ab", "cd"]);
    a.cursor_x = 2;
    a.delete_char();
    assert_eq!(lines(&a), vec!["abcd".to_string()]);
    a.cursor_x = 0;
    a.delete_char();
    assert_eq!(lines(&a), vec!["bcd".to_string()]);
    a.undo();
    assert_eq!(lines(&a), vec!["abcd".to_string()]);
}

#[test]
fn backspace_at_line_start_joins_with_the_line_above() {
    let mut a = app_with(&["ab", "cd"]);
    a.cursor_y = 1;
    a.handle_backspace();
    assert_eq!(lines(&a), vec!["abcd".to_string()]);
    assert_eq!((a.cursor_x, a.cursor_y), (2, 0));
    a.handle_backspace();
    assert_eq!(lines(&a), vec!["acd".to_string()]);
    assert_eq!(a.cursor_x, 1);
}

#[test]
fn backspace_at_the_very_start_does_nothing() {
    let mut a = app_with(&["ab"]);
    a.handle_backspace();
    assert_eq!(lines(&a), vec!["ab".to_string()]);
    assert!(!a.is_buffer_modified());
}

#[test]
fn tab_types_spaces_two_columns_apart() {
    let mut a = app_with(&[""]);
    a.insert_tab();
    assert_eq!(lines(&a), vec!["    ".to_string()]);
    assert_eq!(a.cursor_x, 8);
    let mut b = app_with(&["ab"]);
    b.insert_tab();
    assert_eq!(lines(&b), vec![" a b  ".to_string()]);
}

#[test]
fn replace_char_swaps_the_character_under_the_cursor() {
    let mut a = app_with(&["abc"]);
    a.cursor_x = 1;
    a.replace_char('X');
    assert_eq!(lines(&a), vec!["aXc".to_string()]);
    assert_eq!(a.cursor_x, 2);
}

#[test]
fn open_line_below_and_above() {
    let mut a = app_with(&["a", "b"]);
    a.open_new_line_below();
    assert_eq!(lines(&a), vec!["a".to_string(), String::new(), "b".to_string()]);
    assert_eq!((a.cursor_x, a.cursor_y, a.mode), (0, 1, AppMode::Insert));
    a.open_new_line_above();
    assert_eq!(lines(&a), vec!["a".to_string(), String::new(), String::new(), "b".to_string()]);
    assert_eq!(a.cursor_y, 1);
}

#[test]
fn kill_line_yanks_the_rest_and_joins_when_empty() {
    let mut a = app_with(&["hello", "world"]);
    a.cursor_x = 2;
    a.kill_line();
    assert_eq!(lines(&a), vec!["he".to_string(), "world".to_string()]);
    assert_eq!(a.yank_register.as_deref(), Some("llo"));
    a.kill_line();
    assert_eq!(lines(&a), vec!["heworld".to_string()]);
    assert_eq!(a.yank_register.as_deref(), Some("llo"));
}

#[test]
fn yank_and_put_lines() {
    let mut a = app_with(&["one", "two"]);
    a.yank_current_line();
    assert_eq!(a.status_message.as_deref(), Some("Yanked 1 line"));
    a.cursor_y = 1;
    a.put_after();
    assert_eq!(lines(&a), vec!["one".to_string(), "one".to_string(), "two".to_string()]);
    assert_eq!(a.cursor_y, 2);
    assert_eq!(a.status_message.as_deref(), Some("Pasted"));
    a.put_before();
    assert_eq!(a.buffer.lines.len(), 4);
    assert_eq!(a.cursor_y, 2);
    assert_eq!(a.status_message.as_deref(), Some("Pasted above"));
}

#[test]
fn put_without_yank_does_nothing() {
    let mut a = app_with(&["one"]);
    a.put_after();
    a.put_before();
    assert_eq!(lines(&a), vec!["one".to_string()]);
    assert_eq!(a.status_message, None);
}

#[test]
fn delete_current_line_and_undo_it() {
    let mut a = app_with(&["a", "bb", "c"]);
    a.cursor_y = 2;
    a.delete_current_line();
    assert_eq!(lines(&a), vec!["a".to_string(), "bb".to_string()]);
    assert_eq!(a.cursor_y, 1);
    a.undo();
    assert_eq!(lines(&a), vec!["a".to_string(), "bb".to_string(), "c".to_string()]);
}

#[test]
fn change_current_line_keeps_the_indentation() {
    let mut a = app_with(&["    let x = 1;"]);
    a.change_current_line();
    assert_eq!(lines(&a), vec!["    ".to_string()]);
    assert_eq!(a.yank_register.as_deref(), Some("    let x = 1;"));
    assert_eq!((a.cursor_x, a.mode), (4, AppMode::Insert));
}

#[test]
fn change_to_end_of_line_records_each_deletion_at_its_column() {
    let mut a = app_with(&["abcd"]);
    a.cursor_x = 1;
    a.change_to_end_of_line();
    assert_eq!(lines(&a), vec!["a".to_string()]);
    assert_eq!(a.yank_register.as_deref(), Some("bcd"));
    assert_eq!(a.mode, AppMode::Insert);
    a.history.finish_group();
    a.undo();
    assert_eq!(lines(&a), vec!["abdc".to_string()]);
}

#[test]
fn indent_and_unindent_the_line() {
    let mut a = app_with(&["x"]);
    a.indent_current_line();
    assert_eq!(lines(&a), vec!["    x".to_string()]);
    assert_eq!(a.cursor_x, 4);
    a.unindent_current_line();
    assert_eq!(lines(&a), vec!["x".to_string()]);
    assert_eq!(a.cursor_x, 0);
    a.undo();
    assert_eq!(lines(&a), vec!["    x".to_string()]);
}

#[test]
fn unindent_removes_at_most_tab_size_spaces() {
    let mut a = app_with(&["      y"]);
    a.unindent_current_line();
    assert_eq!(lines(&a), vec!["  y".to_string()]);
    assert_eq!(a.cursor_x, 2);
}

#[test]
fn apply_and_reverse_a_group_action() {
    let mut a = app_with(&["ab"]);
    let g = EditAction::Group(vec![
        EditAction::InsertChar { line: 0, col: 0, c: 'x' },
        EditAction::InsertChar { line: 0, col: 1, c: 'y' },
    ]);
    a.apply_action(&g);
    assert_eq!(lines(&a), vec!["xyab".to_string()]);
    a.apply_action_reverse(&g);
    assert_eq!(lines(&a), vec!["ab".to_string()]);
}

#[test]
fn inserting_and_deleting_whole_lines_by_action() {
    let mut a = app_with(&["a"]);
    let ins = EditAction::InsertLine { line: 1, text: "b".to_string() };
    a.apply_action(&ins);
    assert_eq!(lines(&a), vec!["a".to_string(), "b".to_string()]);
    assert_eq!(a.cursor_y, 1);
    a.apply_action_reverse(&ins);
    assert_eq!(lines(&a), vec!["a".to_string()]);
    assert_eq!(a.cursor_y, 0);
}

#[test]
fn undoing_an_action_is_applying_its_reverse() {
    let actions = vec![
        EditAction::InsertChar { line: 0, col: 1, c: 'q' },
        EditAction::DeleteChar { line: 1, col: 0, c: 'z' },
        EditAction::InsertLine { line: 1, text: "new".to_string() },
        EditAction::DeleteLine { line: 0, text: "old".to_string() },
        EditAction::Group(vec![
            EditAction::InsertChar { line: 0, col: 0, c: 'a' },
            EditAction::DeleteChar { line: 1, col: 1, c: 'b' },
        ]),
    ];
    for action in actions {
        let mut undone = app_with(&["abc", "def", "ghi"]);
        let mut applied = app_with(&["abc", "def", "ghi"]);
        undone.apply_action_reverse(&action);
        applied.apply_action(&action.reverse());
        assert_eq!(lines(&undone), lines(&applied));
        assert_eq!((undone.cursor_x, undone.cursor_y), (applied.cursor_x, applied.cursor_y));
    }
}

#[test]
fn undoing_a_line_break_at_the_line_start_restores_the_text() {
    let mut a = app_with(&["ab", "cd"]);
    a.cursor_y = 1;
    a.insert_newline();
    assert_eq!(lines(&a), vec!["ab".to_string(), String::new(), "cd".to_string()]);
    a.undo();
    assert_eq!(lines(&a), vec!["ab".to_string(), "cd".to_string()]);
}
