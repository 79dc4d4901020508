//! The text buffer: a list of lines, with a cache of the whole text.
use vstd::prelude::*;
use crate::text::{
    capped, char_at, char_count, char_is_whitespace, char_len_utf8, char_slice, empty_string, is_unicode_whitespace,
    string_push, utf8_width,
};

verus! {

/// The characters of each line.
pub open spec fn lines_view(lines: Seq<String>) -> Seq<Seq<char>> {
    lines.map_values(|s: String| s@)
}

/// The lines joined with a `'\n'` between each two of them.
pub open spec fn join_with_newlines(lines: Seq<Seq<char>>) -> Seq<char>
    decreases lines.len(),
{
    if lines.len() == 0 {
        Seq::empty()
    } else if lines.len() == 1 {
        lines[0]
    } else {
        join_with_newlines(lines.drop_last()) + seq!['\n'] + lines.last()
    }
}

/// A column clamped to the end of the line: where an edit at `col` lands.
pub open spec fn clamp_col(line: Seq<char>, col: int) -> int {
    if col < line.len() {
        col
    } else {
        line.len() as int
    }
}

/// `r` is the number of leading spaces of `s`, counting at most `n`.
pub open spec fn is_leading_space_count(s: Seq<char>, n: int, r: int) -> bool {
    &&& 0 <= r <= n
    &&& r <= s.len()
    &&& forall|i: int| 0 <= i < r ==> s[i] == ' '
    &&& (r == n || r == s.len() || s[r] != ' ')
}

/// `r` is the number of leading whitespace characters of `s`.
pub open spec fn is_leading_whitespace_count(s: Seq<char>, r: int) -> bool {
    &&& 0 <= r <= s.len()
    &&& forall|i: int| 0 <= i < r ==> is_unicode_whitespace(#[trigger] s[i])
    &&& (r == s.len() || !is_unicode_whitespace(s[r]))
}

/// `new` is `old` after a change of its text to `t`: the cache is no longer
/// current and the buffer is modified.
pub open spec fn edited_to(old: Buffer, new: Buffer, t: Seq<Seq<char>>) -> bool {
    &&& new.text() == t
    &&& new.stored_text() is None
    &&& new.modified
}

/// `new` is `old` after `insert_char(row, col, ch)`.
pub open spec fn inserted_char(old: Buffer, new: Buffer, row: usize, col: usize, ch: char) -> bool {
    if row < old.lines@.len() {
        let line = old.text()[row as int];
        edited_to(old, new, old.text().update(row as int, line.insert(clamp_col(line, col as int), ch)))
    } else {
        new == old
    }
}

/// `new` is `old` after `split_line(row, col)`.
pub open spec fn split_at(old: Buffer, new: Buffer, row: usize, col: usize) -> bool {
    if row < old.lines@.len() {
        let line = old.text()[row as int];
        let k = clamp_col(line, col as int);
        edited_to(old, new, old.text().update(row as int, line.take(k)).insert(row + 1, line.skip(k)))
    } else {
        new == old
    }
}

/// `new` is `old` after `truncate_line(row, col)` returned `tail`.
pub open spec fn truncated(old: Buffer, new: Buffer, row: usize, col: usize, tail: Seq<char>) -> bool {
    if row < old.lines@.len() {
        let line = old.text()[row as int];
        let k = clamp_col(line, col as int);
        &&& tail == line.skip(k)
        &&& edited_to(old, new, old.text().update(row as int, line.take(k)))
    } else {
        tail == Seq::<char>::empty() && new == old
    }
}

/// `new` is `old` after `join_lines(row)` returned `joint`.
pub open spec fn joined(old: Buffer, new: Buffer, row: usize, joint: Option<usize>) -> bool {
    let t = old.text();
    if row + 1 < t.len() {
        &&& (joint matches Some(j) && j == t[row as int].len())
        &&& edited_to(old, new, t.update(row as int, t[row as int] + t[row + 1]).remove(row + 1))
    } else {
        joint is None && new == old
    }
}

/// `new` is `old` after `delete_char(row, col)`.
pub open spec fn deleted_char(old: Buffer, new: Buffer, row: usize, col: usize) -> bool {
    if row < old.lines@.len() && col < old.text()[row as int].len() {
        edited_to(old, new, old.text().update(row as int, old.text()[row as int].remove(col as int)))
    } else {
        new == old
    }
}

/// `new` is `old` after `delete_line(y)`: the line removed, or the only line
/// emptied.
pub open spec fn deleted_line(old: Buffer, new: Buffer, y: usize) -> bool {
    if old.lines@.len() > 1 {
        edited_to(old, new, old.text().remove(y as int))
    } else {
        edited_to(old, new, seq![Seq::<char>::empty()])
    }
}

/// `new` is `old` after `insert_line_at(row, text)`.
pub open spec fn inserted_line(old: Buffer, new: Buffer, row: usize, text: Seq<char>) -> bool {
    if row <= old.lines@.len() {
        edited_to(old, new, old.text().insert(row as int, text))
    } else {
        edited_to(old, new, old.text().push(text))
    }
}

pub struct Buffer {
    pub lines: Vec<String>,
    pub full_text_cache: Option<String>,
    pub is_dirty: bool,
    pub modified: bool,
}

impl Buffer {
    /// The characters of each line.
    pub open spec fn text(&self) -> Seq<Seq<char>> {
        lines_view(self.lines@)
    }

    /// The whole text as the cache holds it, when the cache is current.
    pub open spec fn stored_text(&self) -> Option<Seq<char>> {
        if self.is_dirty {
            None
        } else {
            match self.full_text_cache {
                Some(s) => Some(s@),
                None => None,
            }
        }
    }

    /// The cache, when current, agrees with the lines.
    pub open spec fn coherent(&self) -> bool {
        self.stored_text() matches Some(t) ==> t == join_with_newlines(self.text())
    }

    /// An empty buffer: one empty line.
    pub fn new() -> (b: Self)
        ensures
            b.text() == seq![Seq::<char>::empty()],
            b.lines@.len() == 1,
            b.full_text_cache is None,
            b.is_dirty,
            b.stored_text() is None,
            b.coherent(),
            !b.modified,
    {
        let mut lines: Vec<String> = Vec::new();
        lines.push(empty_string());
        proof {
            assert(lines_view(lines@) =~= seq![Seq::<char>::empty()]);
        }
        Self { lines, full_text_cache: None, is_dirty: true, modified: false }
    }

    /// A buffer holding the lines read from a file; no lines at all give one
    /// empty line. The cache holds the joined text.
    pub fn from_lines(lines: Vec<String>) -> (b: Self)
        ensures
            b.text() == (if lines@.len() == 0 {
                seq![Seq::<char>::empty()]
            } else {
                lines_view(lines@)
            }),
            b.stored_text() == Some(join_with_newlines(b.text())),
            b.coherent(),
            !b.modified,
    {
        let mut lines = lines;
        if lines.len() == 0 {
            lines.push(empty_string());
            proof {
                assert(lines_view(lines@) =~= seq![Seq::<char>::empty()]);
            }
        }
        let initial_cache = join_text(&lines);
        Self { lines, full_text_cache: Some(initial_cache), is_dirty: false, modified: false }
    }

    /// Records that the text changed: the cache is no longer current and the
    /// buffer is modified.
    pub fn mark_dirty(&mut self)
        ensures
            final(self).lines == old(self).lines,
            final(self).stored_text() is None,
            final(self).full_text_cache is None,
            final(self).modified,
    {
        self.is_dirty = true;
        self.modified = true;
        self.full_text_cache = None;
    }

    /// Records that the text has been written out: the cache holds the
    /// joined text and the buffer is no longer modified.
    pub fn mark_saved(&mut self)
        ensures
            final(self).lines == old(self).lines,
            final(self).stored_text() == Some(join_with_newlines(final(self).text())),
            final(self).coherent(),
            !final(self).modified,
    {
        let text = join_text(&self.lines);
        self.full_text_cache = Some(text);
        self.is_dirty = false;
        self.modified = false;
    }

    /// Inserts `ch` at column `col` of line `row` (at the end of the line
    /// when `col` is past it); no change when the line does not exist.
    pub fn insert_char(&mut self, row: usize, col: usize, ch: char)
        ensures
            inserted_char(*old(self), *final(self), row, col, ch),
    {
        if row < self.lines.len() {
            let n = char_count(&self.lines[row]);
            let k = if col < n { col } else { n };
            let mut new_line = char_slice(&self.lines[row], 0, k);
            string_push(&mut new_line, ch);
            let tail = char_slice(&self.lines[row], k, n);
            new_line.append(tail.as_str());
            let ghost old_line = self.lines@[row as int]@;
            proof {
                assert(new_line@ =~= old_line.insert(k as int, ch));
            }
            self.lines.set(row, new_line);
            proof {
                assert(lines_view(self.lines@) =~= lines_view(old(self).lines@).update(
                    row as int,
                    old_line.insert(k as int, ch),
                ));
            }
            self.mark_dirty();
        }
    }

    /// Splits line `row` at column `col`: the part from `col` on becomes a
    /// new line below. No change when the line does not exist.
    pub fn split_line(&mut self, row: usize, col: usize)
        ensures
            split_at(*old(self), *final(self), row, col),
    {
        if row < self.lines.len() {
            let n = char_count(&self.lines[row]);
            let k = if col < n { col } else { n };
            let head = char_slice(&self.lines[row], 0, k);
            let new_part = char_slice(&self.lines[row], k, n);
            let ghost old_line = self.lines@[row as int]@;
            self.lines.set(row, head);
            self.lines.insert(row + 1, new_part);
            proof {
                assert(lines_view(self.lines@) =~= lines_view(old(self).lines@).update(
                    row as int,
                    old_line.take(k as int),
                ).insert(row + 1, old_line.skip(k as int)));
            }
            self.mark_dirty();
        }
    }

    /// Cuts line `row` at column `col` and returns the part cut off; an empty
    /// string and no change when the line does not exist.
    pub fn truncate_line(&mut self, row: usize, col: usize) -> (tail: String)
        ensures
            truncated(*old(self), *final(self), row, col, tail@),
    {
        if row < self.lines.len() {
            let n = char_count(&self.lines[row]);
            let k = if col < n { col } else { n };
            let head = char_slice(&self.lines[row], 0, k);
            let tail = char_slice(&self.lines[row], k, n);
            let ghost old_line = self.lines@[row as int]@;
            self.lines.set(row, head);
            proof {
                assert(lines_view(self.lines@) =~= lines_view(old(self).lines@).update(
                    row as int,
                    old_line.take(k as int),
                ));
            }
            self.mark_dirty();
            tail
        } else {
            empty_string()
        }
    }

    /// Appends line `row + 1` to line `row` and returns the column where
    /// they meet; `None` and no change when there is no line below.
    pub fn join_lines(&mut self, row: usize) -> (joint: Option<usize>)
        ensures
            joined(*old(self), *final(self), row, joint),
    {
        if self.lines.len() > 0 && row < self.lines.len() - 1 {
            let next_line = self.lines.remove(row + 1);
            let mut current_line = char_slice(&self.lines[row], 0, char_count(&self.lines[row]));
            let joint_point = char_count(&current_line);
            current_line.append(next_line.as_str());
            let ghost t = lines_view(old(self).lines@);
            proof {
                assert(self.lines@[row as int]@ =~= t[row as int]);
                assert(lines_view(self.lines@) =~= t.remove(row + 1));
            }
            self.lines.set(row, current_line);
            proof {
                assert(current_line@ =~= t[row as int] + t[row + 1]);
                assert(lines_view(self.lines@) =~= t.update(
                    row as int,
                    t[row as int] + t[row + 1],
                ).remove(row + 1));
            }
            self.mark_dirty();
            Some(joint_point)
        } else {
            None
        }
    }

    /// Removes the character at column `col` of line `row`; no change when
    /// there is none.
    pub fn delete_char(&mut self, row: usize, col: usize)
        ensures
            deleted_char(*old(self), *final(self), row, col),
    {
        if row < self.lines.len() {
            let n = char_count(&self.lines[row]);
            if col < n {
                let mut new_line = char_slice(&self.lines[row], 0, col);
                let tail = char_slice(&self.lines[row], col + 1, n);
                new_line.append(tail.as_str());
                let ghost old_line = self.lines@[row as int]@;
                proof {
                    assert(new_line@ =~= old_line.remove(col as int));
                }
                self.lines.set(row, new_line);
                proof {
                    assert(lines_view(self.lines@) =~= lines_view(old(self).lines@).update(
                        row as int,
                        old_line.remove(col as int),
                    ));
                }
                self.mark_dirty();
            }
        }
    }

    /// Removes line `y`, or empties the only line; returns the new number of
    /// lines.
    pub fn delete_line(&mut self, y: usize) -> (n: usize)
        requires
            old(self).lines@.len() >= 1,
            old(self).lines@.len() > 1 ==> y < old(self).lines@.len(),
        ensures
            deleted_line(*old(self), *final(self), y),
            n == final(self).lines@.len(),
    {
        if self.lines.len() > 1 {
            self.lines.remove(y);
            proof {
                assert(lines_view(self.lines@) =~= lines_view(old(self).lines@).remove(y as int));
            }
        } else {
            self.lines.set(0, empty_string());
            proof {
                assert(lines_view(self.lines@) =~= seq![Seq::<char>::empty()]);
            }
        }
        self.mark_dirty();
        self.lines.len()
    }

    /// Inserts `text` as line `row`, or as the last line when `row` is past
    /// the end.
    pub fn insert_line_at(&mut self, row: usize, text: String)
        ensures
            inserted_line(*old(self), *final(self), row, text@),
    {
        let ghost t = text@;
        if row <= self.lines.len() {
            self.lines.insert(row, text);
            proof {
                assert(lines_view(self.lines@) =~= lines_view(old(self).lines@).insert(row as int, t));
            }
        } else {
            self.lines.push(text);
            proof {
                assert(lines_view(self.lines@) =~= lines_view(old(self).lines@).push(t));
            }
        }
        self.mark_dirty();
    }

    /// Puts `text` in front of line `row`; no change when it does not exist.
    pub fn prepend_to_line(&mut self, row: usize, text: &str)
        ensures
            row < old(self).lines@.len() ==> {
                &&& final(self).text() == old(self).text().update(
                    row as int,
                    text@ + old(self).text()[row as int],
                )
                &&& final(self).stored_text() is None
                &&& final(self).modified
            },
            row >= old(self).lines@.len() ==> *final(self) == *old(self),
    {
        if row < self.lines.len() {
            let mut new_line = text.to_owned();
            new_line.append(self.lines[row].as_str());
            let ghost old_line = self.lines@[row as int]@;
            self.lines.set(row, new_line);
            proof {
                assert(lines_view(self.lines@) =~= lines_view(old(self).lines@).update(
                    row as int,
                    text@ + old_line,
                ));
            }
            self.mark_dirty();
        }
    }

    /// Removes up to `n` spaces from the start of line `row` and returns how
    /// many were removed.
    pub fn remove_leading_spaces(&mut self, row: usize, n: usize) -> (count: usize)
        ensures
            row < old(self).lines@.len() ==> {
                let line = old(self).text()[row as int];
                &&& is_leading_space_count(line, n as int, count as int)
                &&& final(self).text() == old(self).text().update(row as int, line.skip(count as int))
                &&& count > 0 ==> final(self).stored_text() is None && final(self).modified
                &&& count == 0 ==> *final(self) == *old(self)
            },
            row >= old(self).lines@.len() ==> count == 0 && *final(self) == *old(self),
    {
        if row < self.lines.len() {
            let len = char_count(&self.lines[row]);
            let mut space_count: usize = 0;
            while space_count < n && space_count < len && char_at(&self.lines[row], space_count)
                == ' '
                invariant
                    row < self.lines@.len(),
                    self == old(self),
                    len == self.lines@[row as int]@.len(),
                    space_count <= n,
                    space_count <= len,
                    forall|i: int| 0 <= i < space_count ==> self.lines@[row as int]@[i] == ' ',
                decreases len - space_count,
            {
                space_count = space_count + 1;
            }
            if space_count > 0 {
                let new_line = char_slice(&self.lines[row], space_count, len);
                let ghost old_line = self.lines@[row as int]@;
                self.lines.set(row, new_line);
                proof {
                    assert(lines_view(self.lines@) =~= lines_view(old(self).lines@).update(
                        row as int,
                        old_line.skip(space_count as int),
                    ));
                }
                self.mark_dirty();
            } else {
                proof {
                    let t = lines_view(old(self).lines@);
                    assert(t[row as int].skip(0) =~= t[row as int]);
                    assert(t.update(row as int, t[row as int]) =~= t);
                }
            }
            return space_count;
        }
        0
    }

    /// The number of whitespace characters at the start of line `row`; 0
    /// when it does not exist.
    pub fn first_non_whitespace_idx(&self, row: usize) -> (idx: usize)
        ensures
            row < self.lines@.len() ==> is_leading_whitespace_count(self.text()[row as int], idx as int),
            row >= self.lines@.len() ==> idx == 0,
    {
        if row < self.lines.len() {
            let len = char_count(&self.lines[row]);
            let mut i: usize = 0;
            while i < len && char_is_whitespace(char_at(&self.lines[row], i))
                invariant
                    row < self.lines@.len(),
                    len == self.lines@[row as int]@.len(),
                    i <= len,
                    forall|j: int| 0 <= j < i ==> is_unicode_whitespace(#[trigger] self.lines@[row as int]@[j]),
                decreases len - i,
            {
                i = i + 1;
            }
            i
        } else {
            0
        }
    }

    /// The byte offset in line `y` of its character `char_x` (the line's
    /// length in bytes when `char_x` is past its end); 0 when the line does
    /// not exist.
    pub fn char_to_byte_idx(&self, y: usize, char_x: usize) -> (idx: usize)
        ensures
            idx == (if y < self.lines@.len() {
                let line = self.text()[y as int];
                capped(utf8_width(line.take(clamp_col(line, char_x as int))))
            } else {
                0
            }),
    {
        if y >= self.lines.len() {
            return 0;
        }
        let ghost line = self.text()[y as int];
        let n = char_count(&self.lines[y]);
        let k = if char_x < n { char_x } else { n };
        let mut i: usize = 0;
        let mut bytes: usize = 0;
        proof {
            assert(line.take(0) =~= Seq::<char>::empty());
        }
        while i < k
            invariant
                y < self.lines@.len(),
                line == self.text()[y as int],
                n == line.len(),
                k <= n,
                i <= k,
                bytes == capped(utf8_width(line.take(i as int))),
            decreases k - i,
        {
            let w = char_len_utf8(char_at(&self.lines[y], i));
            proof {
                assert(line.take(i + 1).drop_last() =~= line.take(i as int));
            }
            bytes = bytes.saturating_add(w);
            i = i + 1;
        }
        bytes
    }

    /// The character at column `col` of line `row`, if there is one.
    pub fn get_char(&self, row: usize, col: usize) -> (c: Option<char>)
        ensures
            c == (if row < self.lines@.len() && col < self.text()[row as int].len() {
                Some(self.text()[row as int][col as int])
            } else {
                None
            }),
    {
        if row < self.lines.len() && col < char_count(&self.lines[row]) {
            Some(char_at(&self.lines[row], col))
        } else {
            None
        }
    }

    /// The number of characters of line `row`, if it exists.
    pub fn line_len(&self, row: usize) -> (n: Option<usize>)
        ensures
            row < self.lines@.len() ==> (n matches Some(k) && k == self.text()[row as int].len()),
            row >= self.lines@.len() ==> n is None,
    {
        if row < self.lines.len() {
            Some(char_count(&self.lines[row]))
        } else {
            None
        }
    }

    /// The whole text: the lines joined with `'\n'`. The cache is refreshed
    /// when it is not current, and its text is returned.
    pub fn as_full_text(&mut self) -> (r: &str)
        ensures
            final(self).lines == old(self).lines,
            final(self).modified == old(self).modified,
            r@ == (match old(self).stored_text() {
                Some(t) => t,
                None => join_with_newlines(old(self).text()),
            }),
            final(self).stored_text() == Some(r@),
            old(self).coherent() ==> r@ == join_with_newlines(old(self).text()),
            old(self).coherent() ==> final(self).coherent(),
    {
        if self.is_dirty || self.full_text_cache.is_none() {
            self.full_text_cache = Some(join_text(&self.lines));
            self.is_dirty = false;
        }
        match &self.full_text_cache {
            Some(s) => s.as_str(),
            None => "",
        }
    }
}

/// Inserting a character and then deleting the character at the column where
/// it landed gives the text back (what undoing a typed character relies on).
pub proof fn law_insert_then_delete_restores(t: Seq<Seq<char>>, row: int, col: int, c: char)
    requires
        0 <= row < t.len(),
        0 <= col,
    ensures
        ({
            let k = clamp_col(t[row], col);
            let t1 = t.update(row, t[row].insert(k, c));
            &&& k < t1[row].len()
            &&& t1.update(row, t1[row].remove(k)) == t
        }),
{
    let k = clamp_col(t[row], col);
    let t1 = t.update(row, t[row].insert(k, c));
    assert(t1[row].remove(k) =~= t[row]);
    assert(t1.update(row, t1[row].remove(k)) =~= t);
}

/// Deleting a character and inserting it again at its column gives the text
/// back (what undoing a deletion relies on).
pub proof fn law_delete_then_insert_restores(t: Seq<Seq<char>>, row: int, col: int)
    requires
        0 <= row < t.len(),
        0 <= col < t[row].len(),
    ensures
        ({
            let t1 = t.update(row, t[row].remove(col));
            &&& clamp_col(t1[row], col) == col
            &&& t1.update(row, t1[row].insert(col, t[row][col])) == t
        }),
{
    let t1 = t.update(row, t[row].remove(col));
    assert(t1[row].insert(col, t[row][col]) =~= t[row]);
    assert(t1.update(row, t1[row].insert(col, t[row][col])) =~= t);
}

/// Splitting a line and joining it with the next one gives the text back, and
/// the join reports the column of the split.
pub proof fn law_split_then_join_restores(t: Seq<Seq<char>>, row: int, col: int)
    requires
        0 <= row < t.len(),
        0 <= col,
    ensures
        ({
            let k = clamp_col(t[row], col);
            let t1 = t.update(row, t[row].take(k)).insert(row + 1, t[row].skip(k));
            &&& row + 1 < t1.len()
            &&& t1[row].len() == k
            &&& t1.update(row, t1[row] + t1[row + 1]).remove(row + 1) == t
        }),
{
    let k = clamp_col(t[row], col);
    let t1 = t.update(row, t[row].take(k)).insert(row + 1, t[row].skip(k));
    assert(t1[row] + t1[row + 1] =~= t[row]);
    assert(t1.update(row, t1[row] + t1[row + 1]).remove(row + 1) =~= t);
}

/// The lines joined with `'\n'`.
fn join_text(lines: &Vec<String>) -> (r: String)
    ensures
        r@ == join_with_newlines(lines_view(lines@)),
{
    let mut r = empty_string();
    let mut i: usize = 0;
    while i < lines.len()
        invariant
            i <= lines@.len(),
            r@ == join_with_newlines(lines_view(lines@).take(i as int)),
        decreases lines@.len() - i,
    {
        let ghost t = lines_view(lines@);
        proof {
            assert(t.take(i + 1).drop_last() =~= t.take(i as int));
        }
        if i > 0 {
            string_push(&mut r, '\n');
        } else {
            proof {
                assert(r@ + t[0] =~= t[0]);
            }
        }
        r.append(lines[i].as_str());
        i = i + 1;
    }
    proof {
        assert(lines_view(lines@).take(i as int) =~= lines_view(lines@));
    }
    r
}

/// No edit of the buffer leaves it without lines: each keeps at least one
/// (of several lines, only an existing one is deleted).
pub proof fn law_edits_keep_a_line(
    old: Buffer,
    new: Buffer,
    row: usize,
    col: usize,
    ch: char,
    tail: Seq<char>,
    joint: Option<usize>,
    text: Seq<char>,
)
    requires
        old.lines@.len() >= 1,
        inserted_char(old, new, row, col, ch) || split_at(old, new, row, col) || truncated(
            old,
            new,
            row,
            col,
            tail,
        ) || joined(old, new, row, joint) || deleted_char(old, new, row, col) || (deleted_line(old, new, row)
            && (old.lines@.len() > 1 ==> row < old.lines@.len())) || inserted_line(old, new, row, text),
    ensures
        new.lines@.len() >= 1,
{
    assert(new.text().len() == new.lines@.len());
    assert(old.text().len() == old.lines@.len());
}

} // verus!
