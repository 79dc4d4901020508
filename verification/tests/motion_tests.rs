use kuu::app::{App, AppMode};
use kuu::buff::Buffer;
use kuu::motion::{char_kind, CharKind};

fn app_with(lines: &[&str]) -> App {
    let mut a = App::new("/tmp".to_string());
    a.buffer = Buffer::from_lines(lines.iter().map(|s| s.to_string()).collect());
    a
}

#[test]
fn left_and_right_stay_inside_the_line() {
    let mut a = app_with(&["ab"]);
    a.move_cursor_left();
    assert_eq!(a.cursor_x, 0);
    a.move_cursor_right();
    a.move_cursor_right();
    a.move_cursor_right();
    assert_eq!(a.cursor_x, 2);
}

#[test]
fn up_and_down_snap_to_the_line_end() {
    let mut a = app_with(&["abcdef", "ab", "abcd"]);
    a.cursor_x = 5;
    a.move_cursor_down();
    assert_eq!((a.cursor_x, a.cursor_y), (1, 1));
    a.move_cursor_down();
    assert_eq!((a.cursor_x, a.cursor_y), (1, 2));
    a.move_cursor_down();
    assert_eq!(a.cursor_y, 2);
    a.mode = AppMode::Insert;
    a.cursor_x = 4;
    a.move_cursor_up();
    assert_eq!((a.cursor_x, a.cursor_y), (2, 1));
}

#[test]
fn snap_moves_a_cursor_below_the_text_to_the_last_line() {
    let mut a = app_with(&["a", "b"]);
    a.cursor_y = 7;
    a.cursor_x = 3;
    a.snap_cursor();
    assert_eq!((a.cursor_x, a.cursor_y), (0, 1));
}

#[test]
fn char_kinds() {
    assert_eq!(char_kind(' '), CharKind::Whitespace);
    assert_eq!(char_kind('a'), CharKind::Word);
    assert_eq!(char_kind('_'), CharKind::Word);
    assert_eq!(char_kind('7'), CharKind::Word);
    assert_eq!(char_kind('.'), CharKind::Punctuation);
}

#[test]
fn word_forward_steps_over_words_and_punctuation() {
    let mut a = app_with(&["foo bar.baz", "  next"]);
    a.move_word_forward();
    assert_eq!(a.cursor_x, 4);
    a.move_word_forward();
    assert_eq!(a.cursor_x, 7);
    a.move_word_forward();
    assert_eq!(a.cursor_x, 8);
    a.move_word_forward();
    assert_eq!((a.cursor_x, a.cursor_y), (2, 1));
}

#[test]
fn word_backward_goes_to_word_starts_and_up_a_line() {
    let mut a = app_with(&["ab cd", "ef"]);
    a.cursor_x = 4;
    a.move_word_backward();
    assert_eq!(a.cursor_x, 3);
    a.move_word_backward();
    assert_eq!(a.cursor_x, 0);
    a.cursor_y = 1;
    a.move_word_backward();
    assert_eq!((a.cursor_x, a.cursor_y), (4, 0));
}

#[test]
fn center_and_scroll() {
    let mut a = app_with(&["a"; 40]);
    a.editor_viewport_height = 10;
    a.cursor_y = 20;
    a.center_cursor();
    assert_eq!(a.row_offset, 15);
    a.scroll(10);
    assert_eq!(a.row_offset, 15);
    a.cursor_y = 30;
    a.scroll(10);
    assert_eq!(a.row_offset, 21);
    a.cursor_y = 3;
    a.scroll(10);
    assert_eq!(a.row_offset, 3);
}

#[test]
fn half_pages_move_and_scroll() {
    let mut a = app_with(&["x"; 30]);
    a.update_viewport_height(10);
    a.scroll_half_page_down();
    assert_eq!((a.cursor_y, a.row_offset), (5, 5));
    a.scroll_half_page_up();
    assert_eq!((a.cursor_y, a.row_offset), (0, 0));
    a.scroll_half_page_up();
    assert_eq!((a.cursor_y, a.row_offset), (0, 0));
}
