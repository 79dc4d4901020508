use kuu::app::{App, AppMode, ConfirmAction, Effect};
use kuu::buff::Buffer;
use kuu::file_tree::{paths_of, scroll_offset, FileTreeState};
use kuu::highlight::{GrammarSet, Highlighter};
use kuu::files::file_list_target;
use kuu::paths::{sort_entries, FileEntry};
use kuu::search::{find_matches, SearchResult, SearchState};

fn entry(p: &str, d: bool) -> FileEntry {
    FileEntry { path: p.to_string(), is_dir: d }
}

fn paths(v: Vec<FileEntry>) -> Vec<String> {
    paths_of(v)
}

#[test]
fn paths_are_read_like_std_paths() {
    let t = FileTreeState::new("/a/b/c".to_string());
    assert_eq!(t.file_tree_parent(), Some("/a/b".to_string()));
    assert_eq!(FileTreeState::new("/".to_string()).file_tree_parent(), None);
    let a = App::new("/tmp".to_string()).with_file("x/main.rs".to_string(), Some(Vec::new()));
    assert_eq!(a.highlighter.current_language_name(), Some("rust"));
    let b = App::new("/tmp".to_string()).with_file(".py".to_string(), Some(Vec::new()));
    assert_eq!(b.highlighter.current_language_name(), None);
    let mut c = App::new("/tmp".to_string());
    c.file_path = Some("a\"b".to_string());
    c.finish_save(Ok(()));
    assert_eq!(c.status_message.as_deref(), Some("Written to \"a\\\"b\""));
    let mut d = App::new("/tmp".to_string());
    d.file_path = Some("it's".to_string());
    d.finish_save(Ok(()));
    assert_eq!(d.status_message.as_deref(), Some("Written to \"it's\""));
}

#[test]
fn listing_order_puts_directories_first_when_asked() {
    let es = vec![entry("/d/b.txt", false), entry("/d/z", true), entry("/d/a.txt", false), entry("/d/c", true)];
    let by_path = sort_entries(vec![entry("/d/b.txt", false), entry("/d/z", true), entry("/d/a.txt", false), entry("/d/c", true)], false);
    assert_eq!(paths(by_path), vec!["/d/a.txt", "/d/b.txt", "/d/c", "/d/z"]);
    let dirs_first = sort_entries(es, true);
    assert_eq!(paths(dirs_first), vec!["/d/c", "/d/z", "/d/a.txt", "/d/b.txt"]);
}

#[test]
fn tree_state_keeps_the_selection_inside_the_list() {
    let mut t = FileTreeState::new("/d".to_string());
    t.selected = 5;
    t.update_file_list("/e".to_string(), Some(vec![entry("/e/b", false), entry("/e/a", true)]));
    assert_eq!(t.list, vec!["/e/a".to_string(), "/e/b".to_string()]);
    assert_eq!(t.selected, 1);
    assert_eq!(t.current_dir, "/e");
    t.update_file_list("/f".to_string(), None);
    assert_eq!(t.current_dir, "/e");
    t.up(1);
    assert_eq!((t.selected, t.offset), (0, 0));
    t.down(1);
    t.down(1);
    assert_eq!((t.selected, t.offset), (1, 1));
    assert_eq!(t.file_tree_parent(), Some("/".to_string()));
}

#[test]
fn scroll_offset_keeps_the_selection_visible() {
    assert_eq!(scroll_offset(12, 0, 5), 8);
    assert_eq!(scroll_offset(2, 4, 5), 2);
    assert_eq!(scroll_offset(3, 1, 5), 1);
    assert_eq!(scroll_offset(30, 1, 0), 1);
}

#[test]
fn app_listing_starts_with_the_parent() {
    let mut a = App::new("/tmp".to_string());
    a.file_list_selected = 3;
    a.update_file_list("/w/s".to_string(), Some(vec![entry("/w/s/y", false), entry("/w/s/x", true)]));
    assert_eq!(a.file_list, vec!["/w".to_string(), "/w/s/x".to_string(), "/w/s/y".to_string()]);
    assert_eq!(a.current_dir, "/w/s");
    assert_eq!((a.file_list_selected, a.file_tree_offset), (0, 0));
    a.file_tree_next();
    a.file_tree_next();
    a.file_tree_next();
    assert_eq!(a.file_list_selected, 2);
    a.file_tree_prev();
    assert_eq!(a.file_list_selected, 1);
    match a.file_tree_select() {
        Effect::SelectTreeEntry(p) => assert_eq!(p, "/w/s/x"),
        e => panic!("unexpected {:?}", e),
    }
    match a.file_tree_parent() {
        Effect::ListDir(p) => assert_eq!(p, "/w"),
        e => panic!("unexpected {:?}", e),
    }
}

#[test]
fn list_target_resolves_files_to_their_directory() {
    assert_eq!(file_list_target("x".to_string(), None), "x");
    assert_eq!(file_list_target("x".to_string(), Some(("/a/x".to_string(), true))), "/a/x");
    assert_eq!(file_list_target("x".to_string(), Some(("/a/x.rs".to_string(), false))), "/a");
}

#[test]
fn selecting_a_file_with_unsaved_changes_asks_first() {
    let mut a = App::new("/tmp".to_string());
    a.insert_char('q');
    let e = a.file_tree_select_resolved("/t/f.rs".to_string(), false);
    assert!(matches!(e, Effect::Done));
    assert_eq!(a.mode, AppMode::Confirm);
    assert_eq!(a.status_message.as_deref(), Some("Discord unsaved changes? (y/n): "));
    match a.confirm_action() {
        Effect::Open(p) => assert_eq!(p, "/t/f.rs"),
        e => panic!("unexpected {:?}", e),
    }
    assert_eq!(a.mode, AppMode::Normal);
    assert_eq!(a.status_message, None);
}

#[test]
fn selecting_a_file_or_directory() {
    let mut a = App::new("/tmp".to_string());
    assert!(matches!(a.file_tree_select_resolved("/t".to_string(), true), Effect::ListDir(p) if p == "/t"));
    a.mode = AppMode::FileTree;
    assert!(matches!(a.file_tree_select_resolved("/t/g".to_string(), false), Effect::Open(p) if p == "/t/g"));
    assert_eq!(a.mode, AppMode::Normal);
    assert_eq!(a.status_message.as_deref(), Some("File opend"));
}

#[test]
fn opening_a_file_resets_cursor_and_history_and_picks_the_language() {
    let mut a = App::new("/tmp".to_string());
    a.insert_char('z');
    a.cursor_y = 0;
    a.open("m.rs".to_string(), Some(vec!["fn main() {}".to_string()]), Some("/p/m.rs".to_string()));
    assert_eq!(a.buffer.lines, vec!["fn main() {}".to_string()]);
    assert_eq!(a.file_path.as_deref(), Some("/p/m.rs"));
    assert_eq!(a.highlighter.current_language_name(), Some("rust"));
    assert_eq!((a.cursor_x, a.cursor_y, a.row_offset), (0, 0, 0));
    assert!(!a.is_buffer_modified());
    a.undo();
    assert_eq!(a.status_message.as_deref(), Some("Already at oldest change"));
    a.open("gone".to_string(), None, None);
    assert_eq!(a.file_path.as_deref(), Some("/p/m.rs"));
}

#[test]
fn with_file_keeps_an_unreadable_path() {
    let a = App::new("/tmp".to_string()).with_file("new.py".to_string(), None);
    assert_eq!(a.file_path.as_deref(), Some("new.py"));
    assert_eq!(a.buffer.lines, vec![String::new()]);
    let b = App::new("/tmp".to_string()).with_file("s.py".to_string(), Some(vec!["x = 1".to_string()]));
    assert_eq!(b.highlighter.current_language_name(), None);
    let mut c = App::new("/tmp".to_string());
    c.highlighter = Highlighter::with_grammars(GrammarSet::all());
    let c = c.with_file("s.py".to_string(), Some(vec!["x = 1".to_string()]));
    assert_eq!(c.highlighter.current_language_name(), Some("python"));
    let mut c = c;
    c.execute_close_file();
    assert_eq!(c.highlighter.current_language_name(), None);
    assert_eq!(c.highlighter.enabled_grammars(), GrammarSet::all());
}

#[test]
fn saving_reports_the_path_or_the_error() {
    let mut a = App::new("/tmp".to_string());
    a.highlighter = Highlighter::with_grammars(GrammarSet::all());
    a.file_path = Some("/t/a.ml".to_string());
    a.insert_char('x');
    a.finish_save(Ok(()));
    assert!(!a.is_buffer_modified());
    assert_eq!(a.status_message.as_deref(), Some("Written to \"/t/a.ml\""));
    assert_eq!(a.highlighter.current_language_name(), Some("ocaml"));
    a.finish_save(Err("disk full".to_string()));
    assert_eq!(a.status_message.as_deref(), Some("Error saving: disk full"));
}

#[test]
fn config_file_detection_and_reload() {
    let mut a = App::new("/tmp".to_string());
    assert!(!a.is_config_file(None, None));
    a.file_path = Some("c.toml".to_string());
    assert!(a.is_config_file(None, None));
    assert!(a.is_config_file(Some("/c".to_string()), Some("/c".to_string())));
    assert!(!a.is_config_file(Some("/c".to_string()), None));
    assert!(!a.is_config_file(Some("/c".to_string()), Some("/d".to_string())));
    a.apply_config(Err("bad".to_string()));
    assert_eq!(a.status_message.as_deref(), Some("Config Error: bad"));
    let mut c = a.config;
    c.tab_size = 2;
    a.apply_config(Ok(c));
    assert_eq!(a.config.tab_size, 2);
    assert_eq!(a.status_message.as_deref(), Some("Config reloaded and applied!"));
}

#[test]
fn open_config_needs_saved_changes_and_an_existing_file() {
    let mut a = App::new("/tmp".to_string());
    assert!(matches!(a.open_config("/c.toml".to_string(), true), Effect::Open(p) if p == "/c.toml"));
    assert_eq!(a.status_message.as_deref(), Some("Editing config.toml"));
    assert!(matches!(a.open_config("/c.toml".to_string(), false), Effect::Done));
    assert_eq!(a.status_message.as_deref(), Some("config.toml not found, Create it first?"));
    a.insert_char('x');
    assert!(matches!(a.open_config("/c.toml".to_string(), true), Effect::Done));
    assert_eq!(a.status_message.as_deref(), Some("Save current changes first!"));
}

#[test]
fn closing_asks_about_unsaved_changes() {
    let mut a = App::new("/tmp".to_string());
    a.file_path = Some("x.rs".to_string());
    a.close_file();
    assert_eq!(a.file_path, None);
    assert_eq!(a.status_message.as_deref(), Some("File closed"));
    a.insert_char('x');
    a.close_file();
    assert_eq!(a.mode, AppMode::Confirm);
    assert!(matches!(a.pending_confirm_action, Some(ConfirmAction::CloseFile)));
    a.cancel_confirm();
    assert_eq!(a.status_message.as_deref(), Some("Canceled"));
    assert_eq!(a.mode, AppMode::Normal);
    a.close_file();
    assert!(matches!(a.confirm_action(), Effect::Done));
    assert_eq!(a.buffer.lines, vec![String::new()]);
    assert!(!a.is_buffer_modified());
}

#[test]
fn confirming_quit() {
    let mut a = App::new("/tmp".to_string());
    a.request_confirm("Really?", ConfirmAction::Quit);
    assert_eq!(a.status_message.as_deref(), Some("Really? (y/n): "));
    a.confirm_action();
    assert_eq!(a.mode, AppMode::Quit);
    assert!(matches!(a.confirm_action(), Effect::Done));
}

#[test]
fn search_finds_every_occurrence_without_overlap() {
    let lines = vec!["aaaa".to_string(), "xaay".to_string(), "".to_string()];
    let q = "aa".to_string();
    let r = find_matches(&lines, &q);
    assert_eq!(
        r,
        vec![
            SearchResult { line_idx: 0, char_idx: 0 },
            SearchResult { line_idx: 0, char_idx: 2 },
            SearchResult { line_idx: 1, char_idx: 1 },
        ]
    );
    assert!(find_matches(&lines, &String::new()).is_empty());
}

#[test]
fn search_state_and_jumping() {
    let mut a = App::new("/tmp".to_string());
    a.buffer = Buffer::from_lines(vec!["one two".to_string(), "two".to_string()]);
    a.search.query = "two".to_string();
    a.execute_search();
    assert_eq!(a.search.results.len(), 2);
    a.search.current_match_idx = 1;
    a.jump_to_current_search_result();
    assert_eq!((a.cursor_x, a.cursor_y), (0, 1));
    a.search.clear();
    assert!(a.search.query.is_empty() && a.search.results.is_empty());
    let s = SearchState::new();
    assert_eq!(s.current_match_idx, 0);
}
