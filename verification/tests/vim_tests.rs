use kuu::app::{App, AppMode, Effect};
use kuu::buff::Buffer;
use kuu::config::KeyBindMode;
use kuu::handler::{get_handler, KeyHandler};
use kuu::keys::{KeyCode, KeyEvent};

fn app_with(lines: &[&str]) -> App {
    let mut a = App::new("/tmp".to_string());
    a.buffer = Buffer::from_lines(lines.iter().map(|s| s.to_string()).collect());
    a
}

fn key(code: KeyCode) -> KeyEvent {
    KeyEvent { code, control: false, alt: false, shift: false }
}

fn ctrl(c: char) -> KeyEvent {
    KeyEvent { code: KeyCode::Char(c), control: true, alt: false, shift: false }
}

fn press(h: &KeyHandler, a: &mut App, k: KeyEvent) -> Effect {
    assert!(h.can_handle(a, &k));
    h.handle_key(k, a)
}

fn typed(h: &KeyHandler, a: &mut App, s: &str) {
    for c in s.chars() {
        press(h, a, key(KeyCode::Char(c)));
    }
}

#[test]
fn insert_mode_types_and_esc_steps_back() {
    let h = get_handler(KeyBindMode::Vim);
    let mut a = app_with(&[""]);
    typed(&h, &mut a, "ihi");
    assert_eq!(a.buffer.lines, vec!["hi".to_string()]);
    assert_eq!(a.mode, AppMode::Insert);
    press(&h, &mut a, key(KeyCode::Esc));
    assert_eq!((a.mode, a.cursor_x), (AppMode::Normal, 1));
    typed(&h, &mut a, "u");
    assert_eq!(a.buffer.lines, vec![String::new()]);
}

#[test]
fn two_key_commands() {
    let h = get_handler(KeyBindMode::Vim);
    let mut a = app_with(&["one", "two", "three"]);
    a.cursor_y = 1;
    typed(&h, &mut a, "dd");
    assert_eq!(a.buffer.lines, vec!["one".to_string(), "three".to_string()]);
    assert_eq!(a.pending_cmd, None);
    typed(&h, &mut a, "yyp");
    assert_eq!(a.buffer.lines, vec!["one".to_string(), "three".to_string(), "three".to_string()]);
    typed(&h, &mut a, "gg");
    assert_eq!((a.cursor_x, a.cursor_y), (0, 0));
    typed(&h, &mut a, "rX");
    assert_eq!(a.buffer.lines[0], "Xne");
    typed(&h, &mut a, "dx");
    assert_eq!(a.buffer.lines[0], "Xne");
    assert_eq!(a.pending_cmd, None);
}

#[test]
fn normal_mode_motions() {
    let h = get_handler(KeyBindMode::Vim);
    let mut a = app_with(&["hello world", "x"]);
    typed(&h, &mut a, "$");
    assert_eq!(a.cursor_x, 10);
    typed(&h, &mut a, "0w");
    assert_eq!(a.cursor_x, 6);
    typed(&h, &mut a, "j");
    assert_eq!((a.cursor_x, a.cursor_y), (0, 1));
    typed(&h, &mut a, "k");
    assert_eq!(a.cursor_y, 0);
    typed(&h, &mut a, "a");
    assert_eq!((a.cursor_x, a.mode), (1, AppMode::Insert));
}

#[test]
fn write_command_names_the_file() {
    let h = get_handler(KeyBindMode::Vim);
    let mut a = app_with(&["x"]);
    typed(&h, &mut a, ":w  out.txt ");
    assert_eq!(a.mode, AppMode::Command);
    assert_eq!(a.command_input, "w  out.txt ");
    let e = press(&h, &mut a, key(KeyCode::Enter));
    assert!(matches!(e, Effect::SaveAndReload));
    assert_eq!(a.file_path.as_deref(), Some("out.txt"));
    assert_eq!(a.mode, AppMode::Normal);
    assert_eq!(a.command_input, "");
}

#[test]
fn quit_asks_about_unsaved_changes() {
    let h = get_handler(KeyBindMode::Vim);
    let mut a = app_with(&["x"]);
    typed(&h, &mut a, "x:q");
    press(&h, &mut a, key(KeyCode::Enter));
    assert_eq!(a.mode, AppMode::Confirm);
    assert_eq!(a.status_message.as_deref(), Some("Discord unsaved changes? (y/n): "));
    typed(&h, &mut a, "n");
    assert_eq!(a.mode, AppMode::Normal);
    typed(&h, &mut a, ":q!");
    press(&h, &mut a, key(KeyCode::Enter));
    assert_eq!(a.mode, AppMode::Quit);
}

#[test]
fn other_commands() {
    let h = get_handler(KeyBindMode::Vim);
    let mut a = app_with(&["x"]);
    typed(&h, &mut a, ":e src/main.rs");
    assert!(matches!(press(&h, &mut a, key(KeyCode::Enter)), Effect::Open(p) if p == "src/main.rs"));
    assert_eq!(a.mode, AppMode::Normal);
    typed(&h, &mut a, ":tree");
    press(&h, &mut a, key(KeyCode::Enter));
    assert!(!a.show_file_tree);
    assert_eq!(a.mode, AppMode::Normal);
    typed(&h, &mut a, ":t");
    press(&h, &mut a, key(KeyCode::Enter));
    assert_eq!((a.show_file_tree, a.mode), (true, AppMode::FileTree));
    press(&h, &mut a, key(KeyCode::Esc));
    typed(&h, &mut a, ":config");
    assert!(matches!(press(&h, &mut a, key(KeyCode::Enter)), Effect::OpenConfig));
    assert_eq!(a.mode, AppMode::Command);
    press(&h, &mut a, key(KeyCode::Esc));
    typed(&h, &mut a, ":nonsense");
    press(&h, &mut a, key(KeyCode::Enter));
    assert_eq!((a.mode, a.command_input.as_str()), (AppMode::Normal, ""));
    typed(&h, &mut a, ":chkey");
    press(&h, &mut a, key(KeyCode::Enter));
    assert_eq!(a.config.key_bind_mode, KeyBindMode::Emacs);
    assert_eq!(a.mode, AppMode::Insert);
}

#[test]
fn empty_command_line_and_backspace() {
    let h = get_handler(KeyBindMode::Vim);
    let mut a = app_with(&["x"]);
    typed(&h, &mut a, ":ab");
    press(&h, &mut a, key(KeyCode::Backspace));
    assert_eq!(a.command_input, "a");
    press(&h, &mut a, key(KeyCode::Backspace));
    press(&h, &mut a, key(KeyCode::Backspace));
    assert_eq!(a.mode, AppMode::Normal);
    typed(&h, &mut a, ":   ");
    press(&h, &mut a, key(KeyCode::Enter));
    assert_eq!(a.mode, AppMode::Normal);
    assert_eq!(a.command_input, "   ");
}

#[test]
fn search_jumps_to_the_next_match() {
    let h = get_handler(KeyBindMode::Vim);
    let mut a = app_with(&["ab ab", "ab"]);
    typed(&h, &mut a, "/ab");
    assert_eq!(a.mode, AppMode::Search);
    assert_eq!(a.search.results.len(), 3);
    press(&h, &mut a, key(KeyCode::Enter));
    assert_eq!((a.cursor_x, a.cursor_y), (3, 0));
    assert_eq!(a.status_message.as_deref(), Some("Found 3 matches"));
    assert_eq!(a.mode, AppMode::Normal);
    typed(&h, &mut a, "/q");
    assert_eq!(a.mode, AppMode::Normal);
    assert!(a.search.results.is_empty());
}

#[test]
fn read_only_files_refuse_insert_mode() {
    let h = get_handler(KeyBindMode::Vim);
    let mut a = app_with(&["x"]);
    a.is_readonly = true;
    a.mode = AppMode::Insert;
    typed(&h, &mut a, "z");
    assert_eq!(a.buffer.lines, vec!["x".to_string()]);
    assert_eq!(a.mode, AppMode::Normal);
    assert_eq!(a.status_message.as_deref(), Some("Error: File is Read-Only"));
}

#[test]
fn help_and_tree_keys() {
    let h = get_handler(KeyBindMode::Vim);
    let mut a = app_with(&["x"]);
    a.show_help();
    typed(&h, &mut a, "jjk");
    assert_eq!(a.help_scroll_offset, 1);
    typed(&h, &mut a, "q");
    assert_eq!(a.mode, AppMode::Insert);
    let mut b = app_with(&["x"]);
    press(&h, &mut b, ctrl('t'));
    assert_eq!(b.mode, AppMode::FileTree);
    assert!(matches!(press(&h, &mut b, key(KeyCode::Enter)), Effect::Done));
    assert!(matches!(press(&h, &mut b, key(KeyCode::Char('h'))), Effect::ListDir(p) if p == "/"));
    press(&h, &mut b, key(KeyCode::Char('q')));
    assert_eq!(b.mode, AppMode::Normal);
}

#[test]
fn control_keys_scroll_and_redo() {
    let h = get_handler(KeyBindMode::Vim);
    let mut a = app_with(&["x"; 20]);
    a.editor_viewport_height = 8;
    press(&h, &mut a, ctrl('d'));
    assert_eq!((a.cursor_y, a.row_offset), (4, 4));
    press(&h, &mut a, ctrl('u'));
    assert_eq!((a.cursor_y, a.row_offset), (0, 0));
    typed(&h, &mut a, "x");
    assert_eq!(a.buffer.lines[0], "");
    typed(&h, &mut a, "u");
    assert_eq!(a.buffer.lines[0], "x");
    press(&h, &mut a, ctrl('r'));
    assert_eq!(a.buffer.lines[0], "");
}

#[test]
fn keys_that_would_fail_are_refused_beforehand() {
    let h = get_handler(KeyBindMode::Vim);
    let mut a = App::new("/tmp".to_string());
    a.buffer.lines = Vec::new();
    assert!(!h.can_handle(&a, &key(KeyCode::Char('j'))));
    assert!(!h.can_handle(&a, &key(KeyCode::Char('x'))));
    assert!(h.can_handle(&a, &key(KeyCode::Char('h'))));
    let mut b = app_with(&["ab"]);
    b.cursor_y = 3;
    assert!(!h.can_handle(&b, &key(KeyCode::Char('l'))));
    assert!(h.can_handle(&b, &key(KeyCode::Char('k'))));
}

#[test]
fn deleting_the_only_line_leaves_an_empty_one() {
    let h = get_handler(KeyBindMode::Vim);
    let mut a = app_with(&["only"]);
    typed(&h, &mut a, "dd");
    assert_eq!(a.buffer.lines, vec![String::new()]);
    typed(&h, &mut a, "dd");
    assert_eq!(a.buffer.lines, vec![String::new()]);
}
