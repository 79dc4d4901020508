use kuu::buff::Buffer;

fn buf(lines: &[&str]) -> Buffer {
    Buffer::from_lines(lines.iter().map(|s| s.to_string()).collect())
}

fn text(b: &Buffer) -> Vec<String> {
    b.lines.clone()
}

#[test]
fn new_buffer_has_one_empty_line() {
    let b = Buffer::new();
    assert_eq!(text(&b), vec![String::new()]);
    assert!(!b.modified);
}

#[test]
fn from_no_lines_gives_one_empty_line() {
    let mut b = Buffer::from_lines(Vec::new());
    assert_eq!(text(&b), vec![String::new()]);
    assert_eq!(b.as_full_text(), "");
}

#[test]
fn full_text_joins_lines_with_newlines() {
    let mut b = buf(&["ab", "", "c"]);
    assert_eq!(b.as_full_text(), "ab\n\nc");
    b.insert_char(1, 0, 'x');
    assert_eq!(b.as_full_text(), "ab\nx\nc");
}

#[test]
fn insert_char_counts_characters_not_bytes() {
    let mut b = buf(&["héllo"]);
    b.insert_char(0, 2, 'X');
    assert_eq!(text(&b), vec!["héXllo".to_string()]);
    assert!(b.modified);
}

#[test]
fn insert_char_past_end_appends() {
    let mut b = buf(&["ab"]);
    b.insert_char(0, 10, 'c');
    assert_eq!(text(&b), vec!["abc".to_string()]);
}

#[test]
fn insert_char_on_missing_line_changes_nothing() {
    let mut b = buf(&["ab"]);
    b.insert_char(3, 0, 'c');
    assert_eq!(text(&b), vec!["ab".to_string()]);
    assert!(!b.modified);
}

#[test]
fn split_then_join_restores_the_line() {
    let mut b = buf(&["hello world"]);
    b.split_line(0, 5);
    assert_eq!(text(&b), vec!["hello".to_string(), " world".to_string()]);
    assert_eq!(b.join_lines(0), Some(5));
    assert_eq!(text(&b), vec!["hello world".to_string()]);
}

#[test]
fn join_on_last_line_does_nothing() {
    let mut b = buf(&["a", "b"]);
    assert_eq!(b.join_lines(1), None);
    assert_eq!(text(&b), vec!["a".to_string(), "b".to_string()]);
}

#[test]
fn truncate_line_returns_the_tail() {
    let mut b = buf(&["abcdef"]);
    let tail = b.truncate_line(0, 2);
    assert_eq!(tail, "cdef");
    assert_eq!(text(&b), vec!["ab".to_string()]);
    assert_eq!(b.truncate_line(5, 0), "");
}

#[test]
fn delete_char_then_insert_restores() {
    let mut b = buf(&["abc"]);
    let c = b.get_char(0, 1).unwrap();
    b.delete_char(0, 1);
    assert_eq!(text(&b), vec!["ac".to_string()]);
    b.insert_char(0, 1, c);
    assert_eq!(text(&b), vec!["abc".to_string()]);
}

#[test]
fn insert_then_delete_char_restores() {
    let mut b = buf(&["abc"]);
    b.insert_char(0, 3, 'z');
    b.delete_char(0, 3);
    assert_eq!(text(&b), vec!["abc".to_string()]);
}

#[test]
fn delete_char_past_end_changes_nothing() {
    let mut b = buf(&["abc"]);
    b.delete_char(0, 3);
    assert_eq!(text(&b), vec!["abc".to_string()]);
    assert!(!b.modified);
}

#[test]
fn delete_line_keeps_one_line() {
    let mut b = buf(&["a", "b"]);
    assert_eq!(b.delete_line(0), 1);
    assert_eq!(text(&b), vec!["b".to_string()]);
    assert_eq!(b.delete_line(0), 1);
    assert_eq!(text(&b), vec![String::new()]);
}

#[test]
fn insert_line_past_end_appends() {
    let mut b = buf(&["a"]);
    b.insert_line_at(5, "z".to_string());
    b.insert_line_at(0, "y".to_string());
    assert_eq!(text(&b), vec!["y".to_string(), "a".to_string(), "z".to_string()]);
}

#[test]
fn prepend_to_line_puts_text_first() {
    let mut b = buf(&["world"]);
    b.prepend_to_line(0, "hello ");
    assert_eq!(text(&b), vec!["hello world".to_string()]);
}

#[test]
fn remove_leading_spaces_stops_at_n_and_at_non_space() {
    let mut b = buf(&["      x", "  \ty"]);
    assert_eq!(b.remove_leading_spaces(0, 4), 4);
    assert_eq!(b.remove_leading_spaces(1, 4), 2);
    assert_eq!(b.remove_leading_spaces(2, 4), 0);
    assert_eq!(text(&b), vec!["  x".to_string(), "\ty".to_string()]);
}

#[test]
fn first_non_whitespace_counts_leading_whitespace() {
    let b = buf(&["  \t x", "   ", "x"]);
    assert_eq!(b.first_non_whitespace_idx(0), 4);
    assert_eq!(b.first_non_whitespace_idx(1), 3);
    assert_eq!(b.first_non_whitespace_idx(2), 0);
    assert_eq!(b.first_non_whitespace_idx(9), 0);
}

#[test]
fn mark_saved_clears_modified() {
    let mut b = buf(&["a"]);
    b.insert_char(0, 0, 'b');
    assert!(b.modified);
    b.mark_saved();
    assert!(!b.modified);
    assert_eq!(b.as_full_text(), "ba");
}

#[test]
fn line_len_and_get_char() {
    let b = buf(&["añb"]);
    assert_eq!(b.line_len(0), Some(3));
    assert_eq!(b.line_len(1), None);
    assert_eq!(b.get_char(0, 1), Some('ñ'));
    assert_eq!(b.get_char(0, 3), None);
}

#[test]
fn char_positions_to_byte_offsets() {
    let mut b = buf(&["héllo"]);
    assert_eq!(b.char_to_byte_idx(0, 0), 0);
    assert_eq!(b.char_to_byte_idx(0, 2), 3);
    assert_eq!(b.char_to_byte_idx(0, 10), 6);
    assert_eq!(b.char_to_byte_idx(1, 2), 0);
    b.mark_dirty();
    assert!(b.modified);
}
