use kuu::help::split_lines;
use kuu::motion::{char_kind, CharKind};
use kuu::keys::{undefined_key, KeyCode};
use kuu::text::{
    concatenated, decimal, pop_last, split_words, starts_with, str_eq,
};

#[test]
fn words_split_at_any_whitespace() {
    assert_eq!(split_words("  w  file.txt\t"), vec!["w".to_string(), "file.txt".to_string()]);
    assert!(split_words(" \t ").is_empty());
    assert_eq!(split_words("a\u{3000}b"), vec!["a".to_string(), "b".to_string()]);
}

#[test]
fn decimal_writes_numbers() {
    assert_eq!(decimal(0), "0");
    assert_eq!(decimal(7), "7");
    assert_eq!(decimal(1203), "1203");
    assert_eq!(decimal(u128::MAX), u128::MAX.to_string());
}

#[test]
fn pop_last_removes_one_character() {
    let mut s = "añ".to_string();
    pop_last(&mut s);
    assert_eq!(s, "a");
    pop_last(&mut s);
    pop_last(&mut s);
    assert_eq!(s, "");
}

#[test]
fn joining_and_prefixes() {
    assert_eq!(concatenated("ab", "cd"), "abcd");
    assert!(starts_with("keyword.control", "keyword"));
    assert!(!starts_with("key", "keyword"));
    assert!(str_eq("x", "x"));
    assert!(!str_eq("x", "y"));
}

#[test]
fn whitespace_and_alphanumeric_follow_std() {
    for c in [' ', '\t', '\n', '\u{a0}', '\u{3000}', 'a', '_', '1', 'é', '!', '\u{200b}'] {
        let words = split_words(&format!("x{}y", c));
        assert_eq!(words.len(), if c.is_whitespace() { 2 } else { 1 });
        let expected = if c.is_whitespace() {
            CharKind::Whitespace
        } else if c.is_alphanumeric() || c == '_' {
            CharKind::Word
        } else {
            CharKind::Punctuation
        };
        assert_eq!(char_kind(c), expected);
    }
}

#[test]
fn lines_split_like_str_lines() {
    for s in ["", "a", "a\n", "a\nb", "a\r\nb\r\n", "\n\n", "x\ry"] {
        let expected: Vec<String> = s.lines().map(|l| l.to_string()).collect();
        assert_eq!(split_lines(s), expected);
    }
}

#[test]
fn key_names_follow_the_terminal_library() {
    assert_eq!(KeyCode::Char('a').name(), "a");
    assert_eq!(KeyCode::Char(' ').name(), "Space");
    assert_eq!(KeyCode::Enter.name(), "Enter");
    assert_eq!(KeyCode::Backspace.name(), "Backspace");
    assert_eq!(KeyCode::Other("F5".to_string()).name(), "F5");
    assert_eq!(undefined_key('x', &KeyCode::Char('z')), "C-x z is undefined");
    assert_eq!(undefined_key('x', &KeyCode::Esc), "C-x Esc is undefined");
}
