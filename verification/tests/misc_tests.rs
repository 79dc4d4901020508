use kuu::app::{App, AppMode};
use kuu::config::{Config, KeyBindMode};
use kuu::highlight::{
    all_indices_below, capture_color, grammar_for, highlights_from_captures, Capture, Grammar, GrammarSet, HighlightColor,
    Highlighter, LanguageConfig,
};
use kuu::history::{EditAction, HistoryManager};
use kuu::screen::{cursor_column, line_number_label, tree_entry_name};
use kuu::view::ViewState;

#[test]
fn default_settings() {
    let c = Config::default();
    assert_eq!(c.key_bind_mode, KeyBindMode::Vim);
    assert!(c.show_line_numbers);
    assert_eq!(c.tab_size, 4);
    let v = ViewState::new();
    assert_eq!((v.cursor_x, v.cursor_y, v.row_offset, v.editor_height), (0, 0, 0, 0));
}

#[test]
fn capture_names_pick_colors() {
    assert_eq!(capture_color("keyword.function"), HighlightColor::Indexed(80));
    assert_eq!(capture_color("function.method"), HighlightColor::Indexed(172));
    assert_eq!(capture_color("string"), HighlightColor::Magenta);
    assert_eq!(capture_color("comment.doc"), HighlightColor::Indexed(141));
    assert_eq!(capture_color("type.builtin"), HighlightColor::Indexed(176));
    assert_eq!(capture_color("punctuation.bracket"), HighlightColor::Cyan);
    assert_eq!(capture_color("variable"), HighlightColor::White);
}

#[test]
fn highlighter_colors_rust_code() {
    let mut h = Highlighter::new();
    assert_eq!(h.current_language_name(), None);
    assert!(h.get_highlights("fn main() {}").unwrap().is_empty());
    h.set_language_by_extension("rs");
    assert_eq!(h.current_language_name(), Some("rust"));
    let text = "fn main() { let x = \"s\"; }";
    let ranges = h.get_highlights(text).unwrap();
    assert!(!ranges.is_empty());
    assert!(ranges.iter().any(|r| r.start_byte == 0 && r.end_byte == 2 && r.color == HighlightColor::Indexed(80)));
    assert!(ranges.iter().any(|r| r.start_byte == 20 && r.end_byte == 23 && r.color == HighlightColor::Magenta));
    assert!(ranges.iter().all(|r| r.start_byte <= r.end_byte && r.end_byte <= text.len()));
    assert_eq!(h.current_language_name(), Some("rust"));
    h.set_language_by_extension("txt");
    assert_eq!(h.current_language_name(), None);
}

#[test]
fn a_plain_build_knows_rust_alone() {
    let mut h = Highlighter::new();
    assert_eq!(h.enabled_grammars(), GrammarSet::rust_only());
    h.set_language_by_extension("rs");
    h.set_language_by_extension("py");
    assert_eq!(h.current_language_name(), None);
    h.set_language_by_extension("ml");
    assert_eq!(h.current_language_name(), None);
}

#[test]
fn every_grammar_when_built_with_all() {
    let mut h = Highlighter::with_grammars(GrammarSet::all());
    h.set_language_by_extension("py");
    assert_eq!(h.current_language_name(), Some("python"));
    assert!(!h.get_highlights("def f():\n    return 1\n").unwrap().is_empty());
    h.set_language_by_extension("ml");
    assert_eq!(h.current_language_name(), Some("ocaml"));
    assert!(!h.get_highlights("let x = 1").unwrap().is_empty());
    h.set_language_by_extension("rs");
    assert_eq!(h.current_language_name(), Some("rust"));
    h.set_language_by_extension("");
    assert_eq!(h.current_language_name(), None);
}

#[test]
fn extensions_name_grammars() {
    assert_eq!(grammar_for("rs"), Some(Grammar::Rust));
    assert_eq!(grammar_for("py"), Some(Grammar::Python));
    assert_eq!(grammar_for("ml"), Some(Grammar::OCaml));
    assert_eq!(grammar_for("RS"), None);
}

#[test]
fn captures_become_colored_ranges() {
    let caps = vec![
        Capture { index: 1, start_byte: 0, end_byte: 2 },
        Capture { index: 0, start_byte: 3, end_byte: 7 },
    ];
    let names = vec!["string.special".to_string(), "keyword".to_string()];
    assert!(all_indices_below(&caps, 2));
    assert!(!all_indices_below(&caps, 1));
    let r = highlights_from_captures(&caps, &names);
    let v: Vec<(usize, usize, HighlightColor)> = r.iter().map(|h| (h.start_byte, h.end_byte, h.color)).collect();
    assert_eq!(v, vec![(0, 2, HighlightColor::Indexed(80)), (3, 7, HighlightColor::Magenta)]);
}

#[test]
fn screen_widths() {
    assert_eq!(cursor_column(&"ab".to_string(), usize::MAX), 2);
    assert_eq!(cursor_column(&"日本".to_string(), usize::MAX), 4);
    assert_eq!(cursor_column(&"e\u{301}x".to_string(), usize::MAX), 2);
    assert_eq!(cursor_column(&"日本語".to_string(), 2), 4);
    assert_eq!(cursor_column(&"ab".to_string(), 9), 2);
    assert_eq!(tree_entry_name("/a/b", "/a"), "..");
    assert_eq!(tree_entry_name("/a/b", "/a/b/c.txt"), "c.txt");
    assert_eq!(tree_entry_name("/", "/"), "?");
}

#[test]
fn reverse_swaps_inserts_and_deletes() {
    let a = EditAction::InsertChar { line: 1, col: 2, c: 'x' };
    assert!(matches!(a.reverse(), EditAction::DeleteChar { line: 1, col: 2, c: 'x' }));
    let g = EditAction::Group(vec![
        EditAction::InsertNewline { line: 0, col: 1 },
        EditAction::DeleteLine { line: 3, text: "t".to_string() },
    ]);
    match g.reverse() {
        EditAction::Group(v) => {
            assert!(matches!(&v[0], EditAction::InsertLine { line: 3, text } if text == "t"));
            assert!(matches!(&v[1], EditAction::DeleteNewline { line: 0, col: 1 }));
        }
        other => panic!("unexpected {:?}", other),
    }
    match g.reverse().reverse() {
        EditAction::Group(v) => {
            assert!(matches!(&v[0], EditAction::InsertNewline { line: 0, col: 1 }));
            assert!(matches!(&v[1], EditAction::DeleteLine { line: 3, text } if text == "t"));
        }
        other => panic!("unexpected {:?}", other),
    }
}

#[test]
fn consecutive_typing_merges() {
    let a = EditAction::InsertChar { line: 0, col: 4, c: 'a' };
    assert!(a.can_merge(&EditAction::InsertChar { line: 0, col: 5, c: 'b' }));
    assert!(!a.can_merge(&EditAction::InsertChar { line: 0, col: 6, c: 'b' }));
    let d = EditAction::DeleteChar { line: 0, col: 4, c: 'a' };
    assert!(d.can_merge(&EditAction::DeleteChar { line: 0, col: 3, c: 'b' }));
    let g = EditAction::Group(vec![a]);
    assert!(g.can_merge(&EditAction::InsertChar { line: 0, col: 5, c: 'b' }));
    assert!(!EditAction::Group(Vec::new()).can_merge(&EditAction::InsertChar { line: 0, col: 5, c: 'b' }));
}

#[test]
fn history_stacks() {
    let mut h = HistoryManager::new();
    assert!(h.pop_undo().is_none());
    h.push_undo(EditAction::InsertChar { line: 0, col: 0, c: 'a' });
    h.push_undo(EditAction::InsertChar { line: 0, col: 1, c: 'b' });
    match h.pop_undo() {
        Some(EditAction::Group(v)) => assert_eq!(v.len(), 2),
        other => panic!("unexpected {:?}", other),
    }
    h.push_redo(EditAction::InsertNewline { line: 0, col: 0 });
    assert!(matches!(h.pop_redo(), Some(EditAction::InsertNewline { line: 0, col: 0 })));
    h.start_group();
    h.push_undo(EditAction::DeleteNewline { line: 2, col: 0 });
    assert!(matches!(h.pop_undo(), Some(EditAction::DeleteNewline { line: 2, col: 0 })));
    h.push_undo_from_redo(EditAction::InsertChar { line: 0, col: 0, c: 'z' });
    assert!(h.pop_redo().is_some());
    h.push_undo(EditAction::InsertChar { line: 0, col: 0, c: 'z' });
    h.clear();
    assert!(h.pop_undo().is_none() && h.pop_redo().is_none());
}

#[test]
fn settings_fall_back_to_the_defaults() {
    let mut c = Config::default();
    c.tab_size = 8;
    c.key_bind_mode = KeyBindMode::Emacs;
    assert_eq!(Config::load(Some(Ok(c))).tab_size, 8);
    assert_eq!(Config::load(Some(Err("bad".to_string()))).tab_size, 4);
    assert_eq!(Config::load(None).key_bind_mode, KeyBindMode::Vim);
}

#[test]
fn status_line_and_gutter() {
    let mut a = App::new("/tmp".to_string());
    assert_eq!(a.status_line(), "[Normal]|ROW:1COL:0|FILE: NO NAME|Plain Text");
    a.file_path = Some("a.rs".to_string());
    a.highlighter.set_language_by_extension("rs");
    a.cursor_y = 9;
    a.cursor_x = 3;
    a.mode = AppMode::Insert;
    assert_eq!(a.status_line(), "[Insert]|ROW:10COL:3|FILE: a.rs|rust");
    a.config.key_bind_mode = KeyBindMode::Emacs;
    assert_eq!(a.status_line(), "ROW:10COL:3|FILE:a.rs|rust");
    assert_eq!(line_number_label(0, 5), format!("{:3} \n", 1));
    assert_eq!(line_number_label(1233, 5000), format!("{:3} \n", 1234));
    assert_eq!(line_number_label(5, 5), "~  ");
}

#[test]
fn a_language_needs_a_compiled_query() {
    use_language_config();
}

fn use_language_config() {
    assert!(LanguageConfig::new("rust", Grammar::Rust, "(not_a_node) @x").is_none());
    let c = LanguageConfig::new("rust", Grammar::Rust, "(identifier) @variable").unwrap();
    assert_eq!(c.name, "rust");
    assert!(LanguageConfig::new("python", Grammar::Python, "(identifier) @variable").is_some());
}
