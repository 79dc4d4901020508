//! Incremental search: the query and the places where it occurs.
use vstd::prelude::*;
use crate::buff::lines_view;
use crate::text::{char_at, char_count};

verus! {

#[derive(Debug, Clone, Copy, PartialEq, Eq, Structural)]
pub struct SearchResult {
    pub line_idx: usize,
    pub char_idx: usize,
}

pub struct SearchState {
    pub query: String,
    pub results: Vec<SearchResult>,
    pub current_match_idx: usize,
}

/// `q` occurs in `line` starting at column `i`.
pub open spec fn occurs_at(line: Seq<char>, q: Seq<char>, i: int) -> bool {
    &&& 0 <= i
    &&& i + q.len() <= line.len()
    &&& line.subrange(i, i + q.len()) == q
}

/// The columns where `q` occurs in `line`, scanning from `from` to the right
/// and resuming after each occurrence (occurrences do not overlap).
pub open spec fn match_positions(line: Seq<char>, q: Seq<char>, from: int) -> Seq<int>
    decreases line.len() - from,
{
    if q.len() == 0 || from < 0 || from + q.len() > line.len() {
        Seq::empty()
    } else if occurs_at(line, q, from) {
        seq![from] + match_positions(line, q, from + q.len())
    } else {
        match_positions(line, q, from + 1)
    }
}

/// Every occurrence of `q` in the lines of `text`, line by line, each line
/// left to right.
pub open spec fn all_matches(text: Seq<Seq<char>>, q: Seq<char>) -> Seq<SearchResult>
    decreases text.len(),
{
    if text.len() == 0 {
        Seq::empty()
    } else {
        all_matches(text.drop_last(), q) + match_positions(text.last(), q, 0).map_values(
            |p: int| SearchResult { line_idx: (text.len() - 1) as usize, char_idx: p as usize },
        )
    }
}

impl SearchState {
    /// An empty query with no results.
    pub fn new() -> (s: Self)
        ensures
            s.query@ == Seq::<char>::empty(),
            s.results@ == Seq::<SearchResult>::empty(),
            s.current_match_idx == 0,
    {
        Self { query: String::new(), results: Vec::new(), current_match_idx: 0 }
    }

    /// Forgets the query and the results.
    pub fn clear(&mut self)
        ensures
            final(self).query@ == Seq::<char>::empty(),
            final(self).results@ == Seq::<SearchResult>::empty(),
            final(self).current_match_idx == 0,
    {
        self.query = String::new();
        self.results.clear();
        self.current_match_idx = 0;
    }
}

/// Whether `q` occurs in `line` at column `i`.
pub fn occurs_here(line: &String, q: &String, i: usize) -> (r: bool)
    requires
        i + q@.len() <= line@.len(),
    ensures
        r == occurs_at(line@, q@, i as int),
{
    let m = char_count(q);
    let len = char_count(line);
    let mut j: usize = 0;
    while j < m
        invariant
            m == q@.len(),
            len == line@.len(),
            i + m <= line@.len(),
            j <= m,
            forall|k: int| 0 <= k < j ==> line@[i + k] == q@[k],
        decreases m - j,
    {
        if char_at(line, i + j) != char_at(q, j) {
            proof {
                assert(line@.subrange(i as int, i + m)[j as int] != q@[j as int]);
            }
            return false;
        }
        j = j + 1;
    }
    proof {
        assert(line@.subrange(i as int, i + m) =~= q@);
    }
    true
}

/// The places where `query` occurs in `lines`; none for an empty query.
pub fn find_matches(lines: &Vec<String>, query: &String) -> (r: Vec<SearchResult>)
    ensures
        r@ == all_matches(lines_view(lines@), query@),
{
    let m = char_count(query);
    let mut out: Vec<SearchResult> = Vec::new();
    let mut row: usize = 0;
    let ghost t = lines_view(lines@);
    proof {
        assert(t.take(0) =~= Seq::<Seq<char>>::empty());
    }
    while row < lines.len()
        invariant
            t == lines_view(lines@),
            m == query@.len(),
            row <= lines@.len(),
            out@ == all_matches(t.take(row as int), query@),
        decreases lines@.len() - row,
    {
        let line = &lines[row];
        let n = char_count(line);
        let ghost start = out@;
        let ghost found: Seq<int> = Seq::empty();
        let mut i: usize = 0;
        if m > 0 {
            while m <= n && i <= n - m
                invariant
                    m == query@.len(),
                    m > 0,
                    n == line@.len(),
                    out@ == start + found.map_values(
                        |p: int| SearchResult { line_idx: row, char_idx: p as usize },
                    ),
                    match_positions(line@, query@, 0) == found + match_positions(line@, query@, i as int),
                decreases n - i,
            {
                if occurs_here(line, query, i) {
                    proof {
                        assert(found.push(i as int) + match_positions(line@, query@, i + m) =~= found
                            + match_positions(line@, query@, i as int));
                        assert(found.push(i as int).map_values(
                            |p: int| SearchResult { line_idx: row, char_idx: p as usize },
                        ) =~= found.map_values(
                            |p: int| SearchResult { line_idx: row, char_idx: p as usize },
                        ).push(SearchResult { line_idx: row, char_idx: i }));
                        found = found.push(i as int);
                    }
                    out.push(SearchResult { line_idx: row, char_idx: i });
                    i = i + m;
                } else {
                    i = i + 1;
                }
            }
        }
        proof {
            assert(match_positions(line@, query@, i as int) =~= Seq::<int>::empty());
            assert(found =~= match_positions(line@, query@, 0));
            let tr = t.take(row + 1);
            assert(tr.drop_last() =~= t.take(row as int));
            assert(tr.last() == line@);
            assert(out@ =~= all_matches(tr, query@));
        }
        row = row + 1;
    }
    proof {
        assert(t.take(row as int) =~= t);
    }
    out
}

proof fn lemma_positions_occur(line: Seq<char>, q: Seq<char>, from: int)
    ensures
        forall|k: int|
            0 <= k < match_positions(line, q, from).len() ==> {
                let p = #[trigger] match_positions(line, q, from)[k];
                &&& from <= p
                &&& occurs_at(line, q, p)
            },
    decreases line.len() - from,
{
    if q.len() == 0 || from < 0 || from + q.len() > line.len() {
        assert(match_positions(line, q, from).len() == 0);
    } else if occurs_at(line, q, from) {
        lemma_positions_occur(line, q, from + q.len());
        let rest = match_positions(line, q, from + q.len());
        let all = match_positions(line, q, from);
        assert(all == seq![from] + rest);
        assert forall|k: int| 0 <= k < all.len() implies {
            let p = #[trigger] all[k];
            &&& from <= p
            &&& occurs_at(line, q, p)
        } by {
            if k > 0 {
                assert(all[k] == rest[k - 1]);
            }
        }
    } else {
        lemma_positions_occur(line, q, from + 1);
        let all = match_positions(line, q, from);
        assert(all == match_positions(line, q, from + 1));
        assert forall|k: int| 0 <= k < all.len() implies {
            let p = #[trigger] all[k];
            &&& from <= p
            &&& occurs_at(line, q, p)
        } by {
            assert(all[k] == match_positions(line, q, from + 1)[k]);
        }
    }
}

/// Every search result is an occurrence of the query: on an existing line,
/// the query's characters start at the result's column.
pub proof fn law_matches_are_occurrences(text: Seq<Seq<char>>, q: Seq<char>)
    requires
        text.len() <= usize::MAX,
        forall|i: int| 0 <= i < text.len() ==> #[trigger] text[i].len() <= usize::MAX,
    ensures
        forall|k: int|
            0 <= k < all_matches(text, q).len() ==> {
                let r = #[trigger] all_matches(text, q)[k];
                &&& r.line_idx < text.len()
                &&& occurs_at(text[r.line_idx as int], q, r.char_idx as int)
            },
    decreases text.len(),
{
    if text.len() > 0 {
        let init = text.drop_last();
        assert forall|i: int| 0 <= i < init.len() implies #[trigger] init[i].len() <= usize::MAX by {
            assert(init[i] == text[i]);
        }
        law_matches_are_occurrences(init, q);
        let line = text.last();
        lemma_positions_occur(line, q, 0);
        let ps = match_positions(line, q, 0);
        let head = all_matches(init, q);
        let tail = ps.map_values(
            |p: int| SearchResult { line_idx: (text.len() - 1) as usize, char_idx: p as usize },
        );
        assert(all_matches(text, q) == head + tail);
        assert forall|k: int| 0 <= k < all_matches(text, q).len() implies {
            let r = #[trigger] all_matches(text, q)[k];
            &&& r.line_idx < text.len()
            &&& occurs_at(text[r.line_idx as int], q, r.char_idx as int)
        } by {
            if k < head.len() {
                assert(all_matches(text, q)[k] == head[k]);
                assert(text[head[k].line_idx as int] == init[head[k].line_idx as int]);
            } else {
                let j = k - head.len();
                assert(all_matches(text, q)[k] == tail[j]);
                let p = ps[j];
                assert(occurs_at(line, q, p));
                assert(p + q.len() <= line.len());
            }
        }
    }
}

proof fn lemma_positions_cover(line: Seq<char>, q: Seq<char>, from: int, p: int)
    requires
        q.len() > 0,
        0 <= from <= p,
        occurs_at(line, q, p),
    ensures
        exists|k: int|
            0 <= k < match_positions(line, q, from).len() && #[trigger] match_positions(line, q, from)[k] <= p
                < match_positions(line, q, from)[k] + q.len(),
    decreases p - from,
{
    let all = match_positions(line, q, from);
    if occurs_at(line, q, from) {
        let rest = match_positions(line, q, from + q.len());
        assert(all == seq![from] + rest);
        if p < from + q.len() {
            assert(all[0] == from);
        } else {
            lemma_positions_cover(line, q, from + q.len(), p);
            let k = choose|k: int| 0 <= k < rest.len() && #[trigger] rest[k] <= p < rest[k] + q.len();
            assert(all[k + 1] == rest[k]);
        }
    } else {
        lemma_positions_cover(line, q, from + 1, p);
        assert(all == match_positions(line, q, from + 1));
    }
}

/// The search misses no occurrence: every place where a non-empty query
/// occurs lies inside one of the matches found on that line (matches do
/// not overlap, so an occurrence that starts inside an earlier match is
/// covered by it).
pub proof fn law_every_occurrence_is_covered(line: Seq<char>, q: Seq<char>, p: int)
    requires
        q.len() > 0,
        occurs_at(line, q, p),
    ensures
        exists|k: int|
            0 <= k < match_positions(line, q, 0).len() && #[trigger] match_positions(line, q, 0)[k] <= p
                < match_positions(line, q, 0)[k] + q.len(),
{
    lemma_positions_cover(line, q, 0, p);
}

} // verus!
