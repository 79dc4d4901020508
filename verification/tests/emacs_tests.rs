use kuu::app::{App, AppMode, Effect};
use kuu::buff::Buffer;
use kuu::config::KeyBindMode;
use kuu::handler::{get_handler, KeyHandler};
use kuu::keys::{KeyCode, KeyEvent};

fn app_with(lines: &[&str]) -> App {
    let mut a = App::new("/tmp".to_string());
    a.buffer = Buffer::from_lines(lines.iter().map(|s| s.to_string()).collect());
    a.config.key_bind_mode = KeyBindMode::Emacs;
    a
}

fn key(code: KeyCode) -> KeyEvent {
    KeyEvent { code, control: false, alt: false, shift: false }
}

fn ctrl(c: char) -> KeyEvent {
    KeyEvent { code: KeyCode::Char(c), control: true, alt: false, shift: false }
}

fn meta(c: char) -> KeyEvent {
    KeyEvent { code: KeyCode::Char(c), control: false, alt: true, shift: false }
}

fn press(h: &KeyHandler, a: &mut App, k: KeyEvent) -> Effect {
    assert!(h.can_handle(a, &k));
    h.handle_key(k, a)
}

fn typed(h: &KeyHandler, a: &mut App, s: &str) {
    for c in s.chars() {
        press(h, a, key(KeyCode::Char(c)));
    }
}

fn emacs() -> KeyHandler {
    get_handler(KeyBindMode::Emacs)
}

#[test]
fn keys_insert_from_normal_mode() {
    let h = emacs();
    let mut a = app_with(&[""]);
    assert_eq!(a.mode, AppMode::Normal);
    typed(&h, &mut a, "hey");
    assert_eq!(a.buffer.lines, vec!["hey".to_string()]);
    assert_eq!(a.mode, AppMode::Insert);
    press(&h, &mut a, key(KeyCode::Enter));
    assert_eq!(a.buffer.lines, vec!["hey".to_string(), String::new()]);
}

#[test]
fn read_only_files_only_report_it() {
    let h = emacs();
    let mut a = app_with(&["x"]);
    a.is_readonly = true;
    typed(&h, &mut a, "z");
    assert_eq!(a.buffer.lines, vec!["x".to_string()]);
    assert_eq!(a.mode, AppMode::Normal);
    assert_eq!(a.status_message.as_deref(), Some("File is Read-Only"));
}

#[test]
fn control_motions_and_edits() {
    let h = emacs();
    let mut a = app_with(&["abc", "de"]);
    press(&h, &mut a, ctrl('e'));
    assert_eq!(a.cursor_x, 3);
    press(&h, &mut a, ctrl('a'));
    press(&h, &mut a, ctrl('f'));
    assert_eq!(a.cursor_x, 1);
    press(&h, &mut a, ctrl('d'));
    assert_eq!(a.buffer.lines[0], "ac");
    press(&h, &mut a, ctrl('k'));
    assert_eq!(a.buffer.lines[0], "a");
    assert_eq!(a.yank_register.as_deref(), Some("c"));
    press(&h, &mut a, ctrl('n'));
    assert_eq!(a.cursor_y, 1);
    press(&h, &mut a, ctrl('y'));
    assert_eq!(a.buffer.lines, vec!["a".to_string(), "c".to_string(), "de".to_string()]);
    press(&h, &mut a, ctrl('p'));
    assert_eq!(a.cursor_y, 0);
}

#[test]
fn control_o_opens_a_line_without_moving() {
    let h = emacs();
    let mut a = app_with(&["abcd"]);
    a.cursor_x = 2;
    press(&h, &mut a, ctrl('o'));
    assert_eq!(a.buffer.lines, vec!["ab".to_string(), "cd".to_string()]);
    assert_eq!((a.cursor_x, a.cursor_y), (2, 0));
}

#[test]
fn meta_keys() {
    let h = emacs();
    let mut a = app_with(&["foo bar", "last line"]);
    press(&h, &mut a, meta('>'));
    assert_eq!((a.cursor_x, a.cursor_y), (9, 1));
    press(&h, &mut a, meta('<'));
    assert_eq!((a.cursor_x, a.cursor_y), (0, 0));
    press(&h, &mut a, meta('f'));
    assert_eq!(a.cursor_x, 4);
    press(&h, &mut a, meta('x'));
    assert_eq!(a.mode, AppMode::Command);
}

#[test]
fn prefix_commands() {
    let h = emacs();
    let mut a = app_with(&["x"]);
    press(&h, &mut a, ctrl('x'));
    assert_eq!(a.pending_cmd, Some('x'));
    assert!(matches!(press(&h, &mut a, ctrl('s')), Effect::SaveAndReload));
    assert_eq!(a.pending_cmd, None);
    press(&h, &mut a, ctrl('x'));
    press(&h, &mut a, key(KeyCode::Char('z')));
    assert_eq!(a.status_message.as_deref(), Some("C-x z is undefined"));
    press(&h, &mut a, ctrl('x'));
    press(&h, &mut a, key(KeyCode::Char(' ')));
    assert_eq!(a.status_message.as_deref(), Some("C-x Space is undefined"));
    press(&h, &mut a, ctrl('x'));
    press(&h, &mut a, ctrl('f'));
    assert_eq!((a.mode, a.command_input.as_str()), (AppMode::Command, "find-file "));
    typed(&h, &mut a, "notes.txt");
    assert!(matches!(press(&h, &mut a, key(KeyCode::Enter)), Effect::Open(p) if p == "notes.txt"));
    assert_eq!(a.mode, AppMode::Insert);
    press(&h, &mut a, ctrl('x'));
    press(&h, &mut a, ctrl('d'));
    assert_eq!(a.mode, AppMode::FileTree);
}

#[test]
fn prefix_undo_and_quit() {
    let h = emacs();
    let mut a = app_with(&[""]);
    typed(&h, &mut a, "ab");
    press(&h, &mut a, ctrl('x'));
    press(&h, &mut a, key(KeyCode::Char('u')));
    assert_eq!(a.buffer.lines, vec![String::new()]);
    press(&h, &mut a, ctrl('x'));
    press(&h, &mut a, ctrl('c'));
    assert_eq!(a.mode, AppMode::Confirm);
    press(&h, &mut a, ctrl('g'));
    assert_eq!(a.mode, AppMode::Normal);
    assert_eq!(a.status_message.as_deref(), Some("Canceled"));
}

#[test]
fn command_line() {
    let h = emacs();
    let mut a = app_with(&["x"]);
    press(&h, &mut a, meta('x'));
    typed(&h, &mut a, "frobnicate now");
    press(&h, &mut a, key(KeyCode::Enter));
    assert_eq!(a.status_message.as_deref(), Some("Unknown command: frobnicate"));
    assert_eq!((a.mode, a.command_input.as_str()), (AppMode::Insert, ""));
    press(&h, &mut a, meta('x'));
    typed(&h, &mut a, "chkey");
    press(&h, &mut a, key(KeyCode::Enter));
    assert_eq!(a.config.key_bind_mode, KeyBindMode::Vim);
    press(&h, &mut a, meta('x'));
    typed(&h, &mut a, "help");
    press(&h, &mut a, key(KeyCode::Enter));
    assert_eq!(a.mode, AppMode::Help);
    let mut b = app_with(&["x"]);
    press(&h, &mut b, meta('x'));
    typed(&h, &mut b, "save-buffer");
    assert!(matches!(press(&h, &mut b, key(KeyCode::Enter)), Effect::SaveAndReload));
    press(&h, &mut b, meta('x'));
    typed(&h, &mut b, "quit");
    press(&h, &mut b, key(KeyCode::Enter));
    assert_eq!(b.mode, AppMode::Quit);
}

#[test]
fn command_line_is_left_with_control_g() {
    let h = emacs();
    let mut a = app_with(&["x"]);
    press(&h, &mut a, meta('x'));
    typed(&h, &mut a, "qu");
    press(&h, &mut a, key(KeyCode::Backspace));
    assert_eq!(a.command_input, "q");
    press(&h, &mut a, key(KeyCode::Esc));
    assert_eq!(a.mode, AppMode::Command);
    press(&h, &mut a, ctrl('g'));
    assert_eq!((a.mode, a.command_input.as_str()), (AppMode::Insert, ""));
}

#[test]
fn incremental_search() {
    let h = emacs();
    let mut a = app_with(&["xa xa", "a"]);
    press(&h, &mut a, ctrl('s'));
    assert_eq!(a.mode, AppMode::Search);
    assert_eq!(a.status_message.as_deref(), Some("Search: "));
    typed(&h, &mut a, "xa");
    assert_eq!(a.search.results.len(), 2);
    press(&h, &mut a, ctrl('s'));
    assert_eq!((a.cursor_x, a.cursor_y), (3, 0));
    press(&h, &mut a, key(KeyCode::Backspace));
    assert_eq!(a.search.results.len(), 2);
    press(&h, &mut a, key(KeyCode::Enter));
    assert_eq!(a.mode, AppMode::Insert);
    assert_eq!(a.status_message.as_deref(), Some("Found 2 matches"));
    press(&h, &mut a, ctrl('s'));
    typed(&h, &mut a, "a");
    press(&h, &mut a, ctrl('g'));
    assert_eq!(a.mode, AppMode::Insert);
    assert!(a.search.query.is_empty());
    assert_eq!(a.status_message, None);
}

#[test]
fn help_scrolls_no_further_than_its_end() {
    let h = emacs();
    let mut a = app_with(&["x"]);
    let total = a.get_help_content().len();
    assert!(total > 3);
    a.file_viewport_height = (total - 2) as u16;
    press(&h, &mut a, ctrl('h'));
    assert_eq!(a.mode, AppMode::Help);
    for _ in 0..5 {
        press(&h, &mut a, key(KeyCode::Char('n')));
    }
    assert_eq!(a.help_scroll_offset, 2);
    press(&h, &mut a, key(KeyCode::Up));
    assert_eq!(a.help_scroll_offset, 1);
    press(&h, &mut a, ctrl('g'));
    assert_eq!(a.mode, AppMode::Insert);
}

#[test]
fn file_tree_keys() {
    let h = emacs();
    let mut a = app_with(&["x"]);
    a.file_list = vec!["/".to_string(), "/tmp/a".to_string(), "/tmp/b".to_string()];
    a.mode = AppMode::FileTree;
    press(&h, &mut a, key(KeyCode::Char('j')));
    press(&h, &mut a, ctrl('n'));
    assert_eq!(a.file_list_selected, 2);
    press(&h, &mut a, key(KeyCode::Char('n')));
    press(&h, &mut a, ctrl('p'));
    assert_eq!(a.file_list_selected, 1);
    assert!(matches!(press(&h, &mut a, key(KeyCode::Char('f'))), Effect::SelectTreeEntry(p) if p == "/tmp/a"));
    assert!(matches!(press(&h, &mut a, key(KeyCode::Char('^'))), Effect::ListDir(p) if p == "/"));
    press(&h, &mut a, ctrl('g'));
    assert_eq!(a.mode, AppMode::Insert);
}

#[test]
fn escape_drops_the_prefix_and_reports() {
    let h = emacs();
    let mut a = app_with(&["x"]);
    a.mode = AppMode::Insert;
    press(&h, &mut a, key(KeyCode::Esc));
    assert_eq!(a.status_message.as_deref(), Some("Quit"));
    press(&h, &mut a, ctrl('g'));
    assert_eq!(a.mode, AppMode::Quit);
}

#[test]
fn emacs_keys_never_go_back_to_normal_mode() {
    let h = emacs();
    let keys = vec![
        key(KeyCode::Char('a')),
        key(KeyCode::Enter),
        key(KeyCode::Esc),
        key(KeyCode::Backspace),
        key(KeyCode::Tab),
        ctrl('a'),
        ctrl('e'),
        ctrl('k'),
        ctrl('y'),
        ctrl('o'),
        meta('f'),
        meta('<'),
        ctrl('x'),
        key(KeyCode::Char('q')),
    ];
    let mut a = app_with(&["one two", "three"]);
    for k in keys {
        press(&h, &mut a, k);
        assert_ne!(a.mode, AppMode::Normal);
    }
}
