//! How a line of text is drawn: cut into pieces that are plain, colored by
//! the highlighter, or marked as search matches.
use vstd::prelude::*;
use crate::buff::Buffer;
use crate::highlight::{HighlightColor, HighlightRange};
use crate::search::{occurs_at, occurs_here, SearchResult, SearchState};
use crate::text::{
    capped, char_at, char_count, char_len_utf8, char_slice, empty_string, string_push, utf8_width,
};

verus! {

/// How a piece of a line is drawn.
#[derive(Debug, Clone, Copy, PartialEq, Eq, Structural)]
pub enum SegmentStyle {
    Plain,
    Colored(HighlightColor),
    /// A search match.
    Match,
    /// The search match the search is on.
    CurrentMatch,
}

/// A piece of a line and how it is drawn.
#[derive(Debug)]
pub struct Segment {
    pub text: String,
    pub style: SegmentStyle,
}

/// The text and style of each segment.
pub open spec fn segments_view(s: Seq<Segment>) -> Seq<(Seq<char>, SegmentStyle)> {
    s.map_values(|g: Segment| (g.text@, g.style))
}

/// A piece, or nothing when its text is empty.
pub open spec fn piece(text: Seq<char>, style: SegmentStyle) -> Seq<(Seq<char>, SegmentStyle)> {
    if text.len() > 0 {
        seq![(text, style)]
    } else {
        Seq::empty()
    }
}

/// The byte offset of character `i` of `line` in UTF-8.
pub open spec fn byte_at(line: Seq<char>, i: int) -> int {
    utf8_width(line.take(i)) as int
}

/// The first character at or after `i` whose byte offset is not below
/// `limit` (the end of the line if there is none).
pub open spec fn skip_below(line: Seq<char>, i: int, limit: int) -> int
    decreases line.len() - i,
{
    if i < 0 || i >= line.len() || byte_at(line, i) >= limit {
        i
    } else {
        skip_below(line, i + 1, limit)
    }
}

proof fn lemma_skip_below(line: Seq<char>, i: int, limit: int)
    requires
        0 <= i <= line.len(),
    ensures
        i <= skip_below(line, i, limit) <= line.len(),
    decreases line.len() - i,
{
    if i < line.len() && byte_at(line, i) < limit {
        lemma_skip_below(line, i + 1, limit);
    }
}

/// `a - b`, or 0 when `b` is larger.
pub open spec fn sub_or_zero(a: int, b: int) -> int {
    if a >= b {
        a - b
    } else {
        0
    }
}

/// The pieces of `line` from character `i` on, with `hs` the highlighted
/// byte ranges of the whole text and `start` the byte offset of the line in
/// it: for each range that overlaps the line, in order, the plain text up to
/// where it starts and the colored text up to where it ends; then the rest,
/// plain. Ranges that start before what is already drawn color less.
pub open spec fn colored_from(line: Seq<char>, start: int, hs: Seq<HighlightRange>, i: int) -> Seq<
    (Seq<char>, SegmentStyle),
>
    decreases hs.len(),
{
    if hs.len() == 0 {
        piece(line.subrange(i, line.len() as int), SegmentStyle::Plain)
    } else {
        let h = hs[0];
        let end = start + utf8_width(line);
        if h.start_byte < end && h.end_byte > start {
            let j = skip_below(line, i, sub_or_zero(h.start_byte as int, start));
            let k = skip_below(line, j, sub_or_zero(h.end_byte as int, start));
            piece(line.subrange(i, j), SegmentStyle::Plain) + piece(
                line.subrange(j, k),
                SegmentStyle::Colored(h.color),
            ) + colored_from(line, start, hs.drop_first(), k)
        } else {
            colored_from(line, start, hs.drop_first(), i)
        }
    }
}

/// The pieces of a line colored by the highlighter; an empty line is one
/// empty plain piece.
pub open spec fn colored_line(line: Seq<char>, start: int, hs: Seq<HighlightRange>) -> Seq<
    (Seq<char>, SegmentStyle),
> {
    let s = colored_from(line, start, hs, 0);
    if s.len() == 0 && line.len() == 0 {
        seq![(Seq::<char>::empty(), SegmentStyle::Plain)]
    } else {
        s
    }
}

/// The style of the match of the search at column `p` of line `y`: the
/// current match, or another.
pub open spec fn match_style(current: Option<SearchResult>, y: usize, p: int) -> SegmentStyle {
    if current == Some(SearchResult { line_idx: y, char_idx: p as usize }) {
        SegmentStyle::CurrentMatch
    } else {
        SegmentStyle::Match
    }
}

/// The pieces of line `y` (`line`) with the matches of `q` marked, scanning
/// from `from` with the text drawn up to `i`: the plain text before each
/// match, then the match.
pub open spec fn marked_from(
    line: Seq<char>,
    q: Seq<char>,
    y: usize,
    current: Option<SearchResult>,
    from: int,
    i: int,
) -> Seq<(Seq<char>, SegmentStyle)>
    decreases line.len() - from,
{
    if q.len() == 0 || from < 0 || from + q.len() > line.len() {
        piece(line.subrange(i, line.len() as int), SegmentStyle::Plain)
    } else if occurs_at(line, q, from) {
        piece(line.subrange(i, from), SegmentStyle::Plain) + seq![(q, match_style(current, y, from))]
            + marked_from(line, q, y, current, from + q.len(), from + q.len())
    } else {
        marked_from(line, q, y, current, from + 1, i)
    }
}

/// The search result the search is on, if any.
pub open spec fn current_result(s: SearchState) -> Option<SearchResult> {
    if s.current_match_idx < s.results@.len() {
        Some(s.results@[s.current_match_idx as int])
    } else {
        None
    }
}

/// The pieces in which line `y` (`line`, starting at byte `start` of the
/// text) is drawn: with the search's matches marked when the query occurs in
/// it, else colored by the highlighter.
pub open spec fn line_pieces(line: Seq<char>, y: usize, start: int, hs: Seq<HighlightRange>, s: SearchState) -> Seq<
    (Seq<char>, SegmentStyle),
> {
    if s.query@.len() > 0 && exists|p: int| occurs_at(line, s.query@, p) {
        marked_from(line, s.query@, y, current_result(s), 0, 0)
    } else {
        colored_line(line, start, hs)
    }
}

/// The text of the pieces, one after the other.
pub open spec fn pieces_text(s: Seq<(Seq<char>, SegmentStyle)>) -> Seq<char>
    decreases s.len(),
{
    if s.len() == 0 {
        Seq::empty()
    } else {
        pieces_text(s.drop_last()) + s.last().0
    }
}

proof fn lemma_pieces_text_add(a: Seq<(Seq<char>, SegmentStyle)>, b: Seq<(Seq<char>, SegmentStyle)>)
    ensures
        pieces_text(a + b) == pieces_text(a) + pieces_text(b),
    decreases b.len(),
{
    if b.len() == 0 {
        assert(a + b =~= a);
        assert(pieces_text(a) + pieces_text(b) =~= pieces_text(a));
    } else {
        lemma_pieces_text_add(a, b.drop_last());
        assert((a + b).drop_last() =~= a + b.drop_last());
        assert((a + b).last() == b.last());
        assert(pieces_text(a) + pieces_text(b) =~= pieces_text(a) + pieces_text(b.drop_last()) + b.last().0);
    }
}

proof fn lemma_piece_text(t: Seq<char>, style: SegmentStyle)
    ensures
        pieces_text(piece(t, style)) == t,
{
    let none = Seq::<(Seq<char>, SegmentStyle)>::empty();
    assert(pieces_text(none) == Seq::<char>::empty());
    if t.len() > 0 {
        assert(piece(t, style).drop_last() =~= none);
        assert(piece(t, style).last() == (t, style));
        assert(Seq::<char>::empty() + t =~= t);
    } else {
        assert(t =~= Seq::<char>::empty());
        assert(piece(t, style) == none);
    }
}

proof fn lemma_colored_tiles(line: Seq<char>, start: int, hs: Seq<HighlightRange>, i: int)
    requires
        0 <= i <= line.len(),
    ensures
        pieces_text(colored_from(line, start, hs, i)) == line.subrange(i, line.len() as int),
    decreases hs.len(),
{
    if hs.len() == 0 {
        lemma_piece_text(line.subrange(i, line.len() as int), SegmentStyle::Plain);
    } else {
        let h = hs[0];
        if h.start_byte < start + utf8_width(line) && h.end_byte > start {
            let j = skip_below(line, i, sub_or_zero(h.start_byte as int, start));
            lemma_skip_below(line, i, sub_or_zero(h.start_byte as int, start));
            let k = skip_below(line, j, sub_or_zero(h.end_byte as int, start));
            lemma_skip_below(line, j, sub_or_zero(h.end_byte as int, start));
            let a = piece(line.subrange(i, j), SegmentStyle::Plain);
            let b = piece(line.subrange(j, k), SegmentStyle::Colored(h.color));
            let c = colored_from(line, start, hs.drop_first(), k);
            lemma_colored_tiles(line, start, hs.drop_first(), k);
            lemma_pieces_text_add(a + b, c);
            lemma_pieces_text_add(a, b);
            lemma_piece_text(line.subrange(i, j), SegmentStyle::Plain);
            lemma_piece_text(line.subrange(j, k), SegmentStyle::Colored(h.color));
            assert(line.subrange(i, j) + line.subrange(j, k) + line.subrange(k, line.len() as int) =~= line.subrange(
                i,
                line.len() as int,
            ));
        } else {
            lemma_colored_tiles(line, start, hs.drop_first(), i);
        }
    }
}

proof fn lemma_marked_tiles(
    line: Seq<char>,
    q: Seq<char>,
    y: usize,
    current: Option<SearchResult>,
    from: int,
    i: int,
)
    requires
        0 <= i <= from <= line.len(),
    ensures
        pieces_text(marked_from(line, q, y, current, from, i)) == line.subrange(i, line.len() as int),
    decreases line.len() - from,
{
    if q.len() == 0 || from < 0 || from + q.len() > line.len() {
        lemma_piece_text(line.subrange(i, line.len() as int), SegmentStyle::Plain);
    } else if occurs_at(line, q, from) {
        let n = from + q.len();
        let a = piece(line.subrange(i, from), SegmentStyle::Plain);
        let b = seq![(q, match_style(current, y, from))];
        let c = marked_from(line, q, y, current, n, n);
        lemma_marked_tiles(line, q, y, current, n, n);
        lemma_pieces_text_add(a + b, c);
        lemma_pieces_text_add(a, b);
        lemma_piece_text(line.subrange(i, from), SegmentStyle::Plain);
        lemma_piece_text(q, match_style(current, y, from));
        assert(piece(q, match_style(current, y, from)) == b);
        assert(line.subrange(i, from) + line.subrange(from, n) + line.subrange(n, line.len() as int) =~= line.subrange(
            i,
            line.len() as int,
        ));
    } else {
        lemma_marked_tiles(line, q, y, current, from + 1, i);
    }
}

/// However a line is cut into pieces, the pieces hold exactly its text, in
/// order: the screen shows the text as it is.
pub proof fn law_pieces_show_the_line(
    line: Seq<char>,
    y: usize,
    start: int,
    hs: Seq<HighlightRange>,
    s: SearchState,
)
    ensures
        pieces_text(line_pieces(line, y, start, hs, s)) == line,
{
    assert(line.subrange(0, line.len() as int) =~= line);
    if s.query@.len() > 0 && exists|p: int| occurs_at(line, s.query@, p) {
        lemma_marked_tiles(line, s.query@, y, current_result(s), 0, 0);
    } else {
        lemma_colored_tiles(line, start, hs, 0);
        let c = colored_from(line, start, hs, 0);
        if c.len() == 0 && line.len() == 0 {
            lemma_piece_text(Seq::<char>::empty(), SegmentStyle::Plain);
            assert(piece(Seq::<char>::empty(), SegmentStyle::Plain).len() == 0);
            let one = seq![(Seq::<char>::empty(), SegmentStyle::Plain)];
            assert(one.drop_last() =~= Seq::<(Seq<char>, SegmentStyle)>::empty());
            assert(pieces_text(one) =~= line);
        }
    }
}

/// The byte length of `line` in UTF-8.
fn byte_length(line: &String) -> (r: u128)
    ensures
        r == utf8_width(line@),
        r <= 4 * line@.len(),
{
    let n = char_count(line);
    let mut i: usize = 0;
    let mut b: u128 = 0;
    while i < n
        invariant
            n == line@.len(),
            i <= n,
            b == byte_at(line@, i as int),
            b <= 4 * i,
        decreases n - i,
    {
        let c = char_at(line, i);
        proof {
            assert(line@.take(i + 1).drop_last() =~= line@.take(i as int));
        }
        b = b + char_len_utf8(c) as u128;
        i = i + 1;
    }
    proof {
        assert(line@.take(n as int) =~= line@);
    }
    b
}

/// The text from character `i` up to `skip_below(line, i, limit)`, that
/// position, and its byte offset.
fn take_below(line: &String, n: usize, i: usize, b: u128, limit: u128) -> (r: (String, usize, u128))
    requires
        n == line@.len(),
        i <= n,
        b == byte_at(line@, i as int),
        b <= 4 * i,
    ensures
        r.1 == skip_below(line@, i as int, limit as int),
        r.0@ == line@.subrange(i as int, r.1 as int),
        r.2 == byte_at(line@, r.1 as int),
        r.2 <= 4 * r.1,
        i <= r.1 <= n,
{
    let mut j = i;
    let mut c = b;
    let mut text = empty_string();
    proof {
        assert(text@ =~= line@.subrange(i as int, i as int));
    }
    while j < n && c < limit
        invariant
            n == line@.len(),
            i <= j <= n,
            c == byte_at(line@, j as int),
            c <= 4 * j,
            text@ == line@.subrange(i as int, j as int),
            skip_below(line@, i as int, limit as int) == skip_below(line@, j as int, limit as int),
        decreases n - j,
    {
        let ch = char_at(line, j);
        proof {
            assert(line@.take(j + 1).drop_last() =~= line@.take(j as int));
        }
        string_push(&mut text, ch);
        proof {
            assert(text@ =~= line@.subrange(i as int, j + 1));
        }
        c = c + char_len_utf8(ch) as u128;
        j = j + 1;
    }
    (text, j, c)
}

/// Adds a piece unless its text is empty.
fn push_piece(out: &mut Vec<Segment>, text: String, style: SegmentStyle)
    ensures
        segments_view(final(out)@) == segments_view(old(out)@) + piece(text@, style),
{
    let ghost before = out@;
    if char_count(&text) > 0 {
        out.push(Segment { text, style });
        proof {
            assert(segments_view(out@) =~= segments_view(before).push((text@, style)));
        }
    } else {
        proof {
            assert(segments_view(before) + piece(text@, style) =~= segments_view(before));
        }
    }
}

/// The pieces of a line colored by the highlighter (`colored_line`).
pub fn colored_segments(line: &String, line_start: usize, hs: &Vec<HighlightRange>) -> (r: Vec<Segment>)
    ensures
        segments_view(r@) == colored_line(line@, line_start as int, hs@),
{
    let n = char_count(line);
    let start = line_start as u128;
    let end = start + byte_length(line);
    let mut out: Vec<Segment> = Vec::new();
    let mut i: usize = 0;
    let mut b: u128 = 0;
    let mut k: usize = 0;
    proof {
        assert(line@.take(0) =~= Seq::<char>::empty());
        assert(hs@.subrange(0, hs@.len() as int) =~= hs@);
        assert(segments_view(out@) =~= Seq::<(Seq<char>, SegmentStyle)>::empty());
    }
    while k < hs.len()
        invariant
            n == line@.len(),
            i <= n,
            b == byte_at(line@, i as int),
            b <= 4 * i,
            k <= hs@.len(),
            end == line_start + utf8_width(line@),
            start == line_start,
            segments_view(out@) + colored_from(line@, line_start as int, hs@.subrange(k as int, hs@.len() as int), i as int)
                == colored_from(line@, line_start as int, hs@, 0),
        decreases hs@.len() - k,
    {
        let ghost rest = hs@.subrange(k as int, hs@.len() as int);
        proof {
            assert(rest.drop_first() =~= hs@.subrange(k + 1, hs@.len() as int));
            assert(rest[0] == hs@[k as int]);
        }
        let h = &hs[k];
        let hs_start = h.start_byte as u128;
        let he = h.end_byte as u128;
        if hs_start < end && he > start {
            let s_rel = if hs_start >= start { hs_start - start } else { 0 };
            let e_rel = if he >= start { he - start } else { 0 };
            let ghost before = segments_view(out@);
            let (plain, j, bj) = take_below(line, n, i, b, s_rel);
            let (colored, m, bm) = take_below(line, n, j, bj, e_rel);
            push_piece(&mut out, plain, SegmentStyle::Plain);
            push_piece(&mut out, colored, SegmentStyle::Colored(h.color));
            proof {
                assert(colored_from(line@, line_start as int, rest, i as int) == piece(
                    line@.subrange(i as int, j as int),
                    SegmentStyle::Plain,
                ) + piece(line@.subrange(j as int, m as int), SegmentStyle::Colored(h.color)) + colored_from(
                    line@,
                    line_start as int,
                    rest.drop_first(),
                    m as int,
                ));
                assert(segments_view(out@) == before + piece(line@.subrange(i as int, j as int), SegmentStyle::Plain)
                    + piece(line@.subrange(j as int, m as int), SegmentStyle::Colored(h.color)));
                assert(before + piece(line@.subrange(i as int, j as int), SegmentStyle::Plain) + piece(
                    line@.subrange(j as int, m as int),
                    SegmentStyle::Colored(h.color),
                ) + colored_from(line@, line_start as int, hs@.subrange(k + 1, hs@.len() as int), m as int)
                    =~= before + colored_from(line@, line_start as int, rest, i as int));
            }
            i = m;
            b = bm;
        } else {
            proof {
                assert(colored_from(line@, line_start as int, rest, i as int) == colored_from(
                    line@,
                    line_start as int,
                    rest.drop_first(),
                    i as int,
                ));
            }
        }
        k = k + 1;
    }
    let tail = char_slice(line, i, n);
    push_piece(&mut out, tail, SegmentStyle::Plain);
    proof {
        assert(hs@.subrange(k as int, hs@.len() as int) =~= Seq::<HighlightRange>::empty());
    }
    if out.len() == 0 && n == 0 {
        out.push(Segment { text: empty_string(), style: SegmentStyle::Plain });
        proof {
            assert(segments_view(out@) =~= seq![(Seq::<char>::empty(), SegmentStyle::Plain)]);
        }
    }
    out
}

/// The pieces of line `y` with the matches of `q` marked (`marked_from`
/// from the start).
pub fn marked_segments(line: &String, q: &String, y: usize, current: Option<SearchResult>) -> (r: Vec<Segment>)
    ensures
        segments_view(r@) == marked_from(line@, q@, y, current, 0, 0),
{
    let n = char_count(line);
    let m = char_count(q);
    let mut out: Vec<Segment> = Vec::new();
    let mut from: usize = 0;
    let mut i: usize = 0;
    proof {
        assert(segments_view(out@) =~= Seq::<(Seq<char>, SegmentStyle)>::empty());
    }
    while m > 0 && from <= n && m <= n - from
        invariant
            n == line@.len(),
            m == q@.len(),
            i <= from <= n,
            segments_view(out@) + marked_from(line@, q@, y, current, from as int, i as int) == marked_from(
                line@,
                q@,
                y,
                current,
                0,
                0,
            ),
        decreases n - from,
    {
        if occurs_here(line, q, from) {
            let ghost before = segments_view(out@);
            let plain = char_slice(line, i, from);
            push_piece(&mut out, plain, SegmentStyle::Plain);
            let is_current = match current {
                Some(r) => r.line_idx == y && r.char_idx == from,
                None => false,
            };
            let style = if is_current { SegmentStyle::CurrentMatch } else { SegmentStyle::Match };
            let ghost mid = segments_view(out@);
            out.push(Segment { text: q.clone(), style });
            proof {
                assert(segments_view(out@) =~= mid.push((q@, style)));
                assert(style == match_style(current, y, from as int));
                assert(segments_view(out@) + marked_from(line@, q@, y, current, from + m, from + m) =~= before
                    + marked_from(line@, q@, y, current, from as int, i as int));
            }
            from = from + m;
            i = from;
        } else {
            from = from + 1;
        }
    }
    let tail = char_slice(line, i, n);
    push_piece(&mut out, tail, SegmentStyle::Plain);
    out
}

/// Whether `q` occurs somewhere in `line`.
fn occurs_in(line: &String, q: &String) -> (r: bool)
    ensures
        r == exists|p: int| occurs_at(line@, q@, p),
{
    let n = char_count(line);
    let m = char_count(q);
    if m > n {
        return false;
    }
    if m == 0 {
        proof {
            assert(line@.subrange(0, 0) =~= q@);
            assert(occurs_at(line@, q@, 0));
        }
        return true;
    }
    let mut p: usize = 0;
    while p <= n - m
        invariant
            n == line@.len(),
            m == q@.len(),
            0 < m <= n,
            forall|k: int| 0 <= k < p ==> !occurs_at(line@, q@, k),
        decreases n - m - p + 1,
    {
        if occurs_here(line, q, p) {
            return true;
        }
        p = p + 1;
    }
    false
}

/// The pieces in which line `y` is drawn (`line_pieces`): `line_start` is
/// its byte offset in the text, `hs` the highlighted ranges of the text.
pub fn line_segments(line: &String, y: usize, line_start: usize, hs: &Vec<HighlightRange>, search: &SearchState) -> (r:
    Vec<Segment>)
    ensures
        segments_view(r@) == line_pieces(line@, y, line_start as int, hs@, *search),
{
    if char_count(&search.query) > 0 && occurs_in(line, &search.query) {
        let current = if search.current_match_idx < search.results.len() {
            Some(search.results[search.current_match_idx])
        } else {
            None
        };
        marked_segments(line, &search.query, y, current)
    } else {
        colored_segments(line, line_start, hs)
    }
}

/// The byte offset in the joined text of line `y`: the bytes of the lines
/// before it, each with its newline.
pub open spec fn line_offset(lines: Seq<Seq<char>>, y: int) -> nat
    decreases y,
{
    if y <= 0 {
        0
    } else {
        line_offset(lines, y - 1) + utf8_width(lines[y - 1]) + 1
    }
}

/// The pieces of every line of `b` (`line_pieces`), each line at its byte
/// offset in the joined text (the largest `usize` past it), with `hs` the
/// highlighted ranges of that text.
pub fn text_segments(b: &Buffer, hs: &Vec<HighlightRange>, search: &SearchState) -> (r: Vec<Vec<Segment>>)
    ensures
        r@.len() == b.text().len(),
        forall|y: int|
            0 <= y < r@.len() ==> segments_view(#[trigger] r@[y]@) == line_pieces(
                b.text()[y],
                y as usize,
                capped(line_offset(b.text(), y)) as int,
                hs@,
                *search,
            ),
{
    let mut out: Vec<Vec<Segment>> = Vec::new();
    let mut start: usize = 0;
    let mut y: usize = 0;
    while y < b.lines.len()
        invariant
            y <= b.lines@.len(),
            b.text().len() == b.lines@.len(),
            out@.len() == y,
            start == capped(line_offset(b.text(), y as int)),
            forall|k: int|
                0 <= k < y ==> segments_view(#[trigger] out@[k]@) == line_pieces(
                    b.text()[k],
                    k as usize,
                    capped(line_offset(b.text(), k)) as int,
                    hs@,
                    *search,
                ),
        decreases b.lines@.len() - y,
    {
        let line = &b.lines[y];
        assert(line@ == b.text()[y as int]);
        let segs = line_segments(line, y, start, hs, search);
        let n = char_count(line);
        let width = b.char_to_byte_idx(y, n);
        assert(line@.take(line@.len() as int) =~= line@);
        out.push(segs);
        start = start.saturating_add(width).saturating_add(1);
        y = y + 1;
    }
    out
}

} // verus!
