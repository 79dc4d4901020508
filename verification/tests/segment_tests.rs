use kuu::highlight::{HighlightColor, HighlightRange};
use kuu::search::{SearchResult, SearchState};
use kuu::buff::Buffer;
use kuu::segments::{colored_segments, line_segments, marked_segments, text_segments, Segment, SegmentStyle};

fn view(v: Vec<Segment>) -> Vec<(String, SegmentStyle)> {
    v.into_iter().map(|s| (s.text, s.style)).collect()
}

fn range(s: usize, e: usize, c: HighlightColor) -> HighlightRange {
    HighlightRange { start_byte: s, end_byte: e, color: c }
}

#[test]
fn colored_pieces_follow_the_ranges() {
    let hs = vec![range(0, 2, HighlightColor::Indexed(80))];
    assert_eq!(
        view(colored_segments(&"fn main".to_string(), 0, &hs)),
        vec![("fn".to_string(), SegmentStyle::Colored(HighlightColor::Indexed(80))), (" main".to_string(), SegmentStyle::Plain)]
    );
}

#[test]
fn overlapping_ranges_color_what_is_left() {
    let hs = vec![range(10, 13, HighlightColor::Cyan), range(12, 20, HighlightColor::White), range(0, 5, HighlightColor::Magenta)];
    assert_eq!(
        view(colored_segments(&"let x".to_string(), 10, &hs)),
        vec![("let".to_string(), SegmentStyle::Colored(HighlightColor::Cyan)), (" x".to_string(), SegmentStyle::Colored(HighlightColor::White))]
    );
    let before = vec![range(0, 5, HighlightColor::Magenta)];
    assert_eq!(view(colored_segments(&"abc".to_string(), 10, &before)), vec![("abc".to_string(), SegmentStyle::Plain)]);
}

#[test]
fn ranges_are_in_bytes() {
    let hs = vec![range(2, 3, HighlightColor::Cyan)];
    assert_eq!(
        view(colored_segments(&"é=1".to_string(), 0, &hs)),
        vec![
            ("é".to_string(), SegmentStyle::Plain),
            ("=".to_string(), SegmentStyle::Colored(HighlightColor::Cyan)),
            ("1".to_string(), SegmentStyle::Plain)
        ]
    );
}

#[test]
fn an_empty_line_is_one_empty_piece() {
    assert_eq!(view(colored_segments(&String::new(), 4, &Vec::new())), vec![(String::new(), SegmentStyle::Plain)]);
}

#[test]
fn matches_are_marked_and_the_current_one_stands_out() {
    let current = Some(SearchResult { line_idx: 0, char_idx: 3 });
    assert_eq!(
        view(marked_segments(&"ab ab".to_string(), &"ab".to_string(), 0, current)),
        vec![
            ("ab".to_string(), SegmentStyle::Match),
            (" ".to_string(), SegmentStyle::Plain),
            ("ab".to_string(), SegmentStyle::CurrentMatch)
        ]
    );
    assert_eq!(
        view(marked_segments(&"aaa".to_string(), &"aa".to_string(), 1, current)),
        vec![("aa".to_string(), SegmentStyle::Match), ("a".to_string(), SegmentStyle::Plain)]
    );
}

#[test]
fn a_line_shows_search_matches_when_the_query_occurs() {
    let hs = vec![range(0, 1, HighlightColor::Cyan)];
    let mut s = SearchState::new();
    assert_eq!(
        view(line_segments(&"xy".to_string(), 0, 0, &hs, &s)),
        vec![("x".to_string(), SegmentStyle::Colored(HighlightColor::Cyan)), ("y".to_string(), SegmentStyle::Plain)]
    );
    s.query = "y".to_string();
    assert_eq!(
        view(line_segments(&"xy".to_string(), 0, 0, &hs, &s)),
        vec![("x".to_string(), SegmentStyle::Plain), ("y".to_string(), SegmentStyle::Match)]
    );
    s.query = "z".to_string();
    assert_eq!(view(line_segments(&"xy".to_string(), 0, 0, &hs, &s)).len(), 2);
}

#[test]
fn pieces_always_spell_the_line() {
    let hs = vec![
        range(3, 9, HighlightColor::Cyan),
        range(0, 4, HighlightColor::White),
        range(5, 6, HighlightColor::Magenta),
        range(30, 40, HighlightColor::Cyan),
    ];
    let mut s = SearchState::new();
    for line in ["", "héllo wörld", "abcdefghij", "  x  "] {
        for start in [0usize, 2, 7] {
            let text: String = line_segments(&line.to_string(), 0, start, &hs, &s).into_iter().map(|g| g.text).collect();
            assert_eq!(text, line);
        }
    }
    s.query = "l".to_string();
    let text: String = line_segments(&"hello".to_string(), 0, 0, &hs, &s).into_iter().map(|g| g.text).collect();
    assert_eq!(text, "hello");
}

#[test]
fn each_line_is_cut_at_its_byte_offset() {
    let b = Buffer::from_lines(vec!["é".to_string(), "ab".to_string()]);
    let hs = vec![range(3, 4, HighlightColor::Cyan)];
    let lines: Vec<Vec<(String, SegmentStyle)>> = text_segments(&b, &hs, &SearchState::new()).into_iter().map(view).collect();
    assert_eq!(
        lines,
        vec![
            vec![("é".to_string(), SegmentStyle::Plain)],
            vec![("a".to_string(), SegmentStyle::Colored(HighlightColor::Cyan)), ("b".to_string(), SegmentStyle::Plain)],
        ]
    );
}
