//! Text edits made at the cursor, each recorded in the history.
use vstd::prelude::*;
use crate::app::{App, AppMode};
use crate::buff::{
    clamp_col, deleted_char, deleted_line, edited_to, inserted_char, inserted_line, is_leading_space_count,
    is_leading_whitespace_count, joined, split_at, truncated,
};
use crate::history::{after_finish_group, after_push_undo, Edit, EditAction, History};
use crate::text::{char_at, char_count, empty_string};

verus! {

/// The history after recording each edit of `s` in order.
pub open spec fn push_all(h: History, s: Seq<Edit>) -> History
    decreases s.len(),
{
    if s.len() == 0 {
        h
    } else {
        after_push_undo(push_all(h, s.drop_last()), s.last())
    }
}

/// The history after opening a group, if none is open.
pub open spec fn after_start_group(h: History) -> History {
    match h.group {
        Some(_) => h,
        None => History { undo: h.undo, redo: h.redo, group: Some(Seq::empty()) },
    }
}

/// One deletion per character of `tail`, at columns `col`, `col + 1`, ...
pub open spec fn deletions(line: usize, col: usize, tail: Seq<char>) -> Seq<Edit>
    decreases tail.len(),
{
    if tail.len() == 0 {
        Seq::empty()
    } else {
        deletions(line, col, tail.drop_last()).push(
            Edit::DeleteChar { line, col: (col + tail.len() - 1) as usize, c: tail.last() },
        )
    }
}

/// One insertion of `' '` per column `0..n`.
pub open spec fn space_insertions(line: usize, n: nat) -> Seq<Edit>
    decreases n,
{
    if n == 0 {
        Seq::empty()
    } else {
        space_insertions(line, (n - 1) as nat).push(Edit::InsertChar { line, col: (n - 1) as usize, c: ' ' })
    }
}

/// `n` deletions of `' '` at column 0.
pub open spec fn space_deletions(line: usize, n: nat) -> Seq<Edit>
    decreases n,
{
    if n == 0 {
        Seq::empty()
    } else {
        space_deletions(line, (n - 1) as nat).push(Edit::DeleteChar { line, col: 0, c: ' ' })
    }
}

/// `n` spaces.
pub open spec fn spaces(n: nat) -> Seq<char> {
    Seq::new(n, |i: int| ' ')
}

/// `b` equals `a` in every field but the buffer and the history.
pub open spec fn same_but_text(a: App, b: App) -> bool {
    b == App { buffer: b.buffer, history: b.history, ..a }
}

/// `b` is `a` after typing `c` at the cursor: inserted, recorded, and the
/// cursor one column further.
pub open spec fn char_inserted(a: App, b: App, c: char) -> bool {
    &&& inserted_char(a.buffer, b.buffer, a.cursor_y, a.cursor_x, c)
    &&& b.history@ == after_push_undo(
        a.history@,
        Edit::InsertChar { line: a.cursor_y, col: a.cursor_x, c },
    )
    &&& b == App {
        buffer: b.buffer,
        history: b.history,
        cursor_x: (a.cursor_x + 1) as usize,
        ..a
    }
}

/// One step of `insert_tab`: a space typed, then the cursor moved one more
/// column.
pub open spec fn tab_step(a: App, b: App) -> bool {
    &&& b.cursor_x == a.cursor_x + 2
    &&& char_inserted(a, b.with_cursor((b.cursor_x - 1) as usize, b.cursor_y), ' ')
}

/// `b` is `a` after `delete_char` (`x`): the character under the cursor
/// removed, or at the end of a line the next line joined to it.
pub open spec fn char_deleted(a: App, b: App) -> bool {
    let t = a.buffer.text();
    let (x, y) = (a.cursor_x, a.cursor_y);
    if y < t.len() && x < t[y as int].len() {
        &&& deleted_char(a.buffer, b.buffer, y, x)
        &&& b.history@ == after_push_undo(a.history@, Edit::DeleteChar { line: y, col: x, c: t[y as int][x as int] })
        &&& same_but_text(a, b)
    } else if y + 1 < t.len() {
        &&& edited_to(a.buffer, b.buffer, t.update(y as int, t[y as int] + t[y + 1]).remove(y + 1))
        &&& b.history@ == after_push_undo(
            a.history@,
            Edit::DeleteNewline { line: y, col: t[y as int].len() as usize },
        )
        &&& same_but_text(a, b)
    } else {
        b == a
    }
}

/// `b` is `a` after a backspace: the character before the cursor removed, or
/// at the start of a line the line joined to the one above.
pub open spec fn backspaced(a: App, b: App) -> bool {
    let t = a.buffer.text();
    let (x, y) = (a.cursor_x, a.cursor_y);
    if x > 0 {
        if y < t.len() && x - 1 < t[y as int].len() {
            &&& deleted_char(a.buffer, b.buffer, y, (x - 1) as usize)
            &&& b.history@ == after_push_undo(
                a.history@,
                Edit::DeleteChar { line: y, col: (x - 1) as usize, c: t[y as int][x - 1] },
            )
            &&& b == App { buffer: b.buffer, history: b.history, cursor_x: (x - 1) as usize, ..a }
        } else {
            b == a
        }
    } else if y > 0 && y < t.len() {
        let j = t[y - 1].len() as usize;
        &&& edited_to(a.buffer, b.buffer, t.update(y - 1, t[y - 1] + t[y as int]).remove(y as int))
        &&& b.history@ == after_push_undo(a.history@, Edit::DeleteNewline { line: (y - 1) as usize, col: j })
        &&& b == App {
            buffer: b.buffer,
            history: b.history,
            cursor_x: j,
            cursor_y: (y - 1) as usize,
            ..a
        }
    } else {
        b == a
    }
}

/// `b` is `a` after `change_to_end_of_line`.
pub open spec fn changed_to_end(a: App, b: App) -> bool {
                let (x, y) = (a.cursor_x, a.cursor_y);
                exists|tail: Seq<char>|
                    #![trigger truncated(a.buffer, b.buffer, y, x, tail)]
                    {
                        &&& truncated(a.buffer, b.buffer, y, x, tail)
                        &&& b.history@ == push_all(after_start_group(a.history@), deletions(y, x, tail))
                        &&& b.yank_register matches Some(s) && s@ == tail
                        &&& b == (App {
                            buffer: b.buffer,
                            history: b.history,
                            yank_register: b.yank_register,
                            mode: AppMode::Insert,
                            ..a
                        })
                    }
            }

/// `b` is `a` after `indent_current_line`.
pub open spec fn indented(a: App, b: App) -> bool {
                let t = a.buffer.text();
                let y = a.cursor_y;
                let n = a.config.tab_size as nat;
                &&& b.history@ == after_finish_group(push_all(after_start_group(a.history@), space_insertions(y, n)))
                &&& (y < t.len() && n > 0 ==> edited_to(a.buffer, b.buffer, t.update(y as int, spaces(n) + t[y as int])))
                &&& (y < t.len() ==> is_leading_whitespace_count(b.buffer.text()[y as int], b.cursor_x as int))
                &&& (!(y < t.len() && n > 0) ==> b.buffer == a.buffer)
                &&& (y >= t.len() ==> b.cursor_x == 0)
                &&& b == (App {
                    buffer: b.buffer,
                    history: b.history,
                    cursor_x: b.cursor_x,
                    ..a
                })
            }

/// `b` is `a` after `unindent_current_line`.
pub open spec fn unindented(a: App, b: App) -> bool {
                let t = a.buffer.text();
                let y = a.cursor_y;
                exists|count: nat|
                    #![trigger space_deletions(y, count)]
                    {
                        &&& b.history@ == after_finish_group(push_all(after_start_group(a.history@), space_deletions(y, count)))
                        &&& (y < t.len() ==> is_leading_space_count(t[y as int], a.config.tab_size as int, count as int))
                        &&& (y < t.len() && count > 0 ==> edited_to(a.buffer, b.buffer, t.update(y as int, t[y as int].skip(count as int))))
                        &&& (!(y < t.len() && count > 0) ==> b.buffer == a.buffer)
                        &&& (y < t.len() ==> is_leading_whitespace_count(b.buffer.text()[y as int], b.cursor_x as int))
                        &&& (y >= t.len() ==> b.cursor_x == 0 && count == 0)
                        &&& b == (App {
                            buffer: b.buffer,
                            history: b.history,
                            cursor_x: b.cursor_x,
                            ..a
                        })
                    }
            }

/// `b` is `a` after `insert_newline`: the line split at the cursor, the split
/// recorded, and the cursor at the start of the new line.
pub open spec fn newline_inserted(a: App, b: App) -> bool {
    &&& split_at(a.buffer, b.buffer, a.cursor_y, a.cursor_x)
    &&& b.history@ == after_push_undo(a.history@, Edit::InsertNewline { line: a.cursor_y, col: a.cursor_x })
    &&& b == (App {
        buffer: b.buffer,
        history: b.history,
        cursor_x: 0,
        cursor_y: (a.cursor_y + 1) as usize,
        ..a
    })
}

/// `b` is `a` after an empty line was opened below the cursor.
pub open spec fn opened_below(a: App, b: App) -> bool {
    &&& inserted_line(a.buffer, b.buffer, (a.cursor_y + 1) as usize, Seq::empty())
    &&& b == (App {
        buffer: b.buffer,
        cursor_x: 0,
        cursor_y: (a.cursor_y + 1) as usize,
        mode: AppMode::Insert,
        ..a
    })
}

/// `b` is `a` after an empty line was opened above the cursor.
pub open spec fn opened_above(a: App, b: App) -> bool {
    &&& inserted_line(a.buffer, b.buffer, a.cursor_y, Seq::empty())
    &&& b == (App {
        buffer: b.buffer,
        cursor_x: 0,
        mode: AppMode::Insert,
        ..a
    })
}

/// `b` is `a` after `kill_line`: the line cut at the cursor and the cut text
/// yanked, or, with nothing to cut before a next line, that line joined on.
pub open spec fn line_killed(a: App, b: App) -> bool {
    let t = a.buffer.text();
    let (x, y) = (a.cursor_x, a.cursor_y);
    if y < t.len() {
        let line = t[y as int];
        let k = clamp_col(line, x as int);
        let t1 = t.update(y as int, line.take(k));
        if k == line.len() && y + 1 < t.len() {
            &&& edited_to(a.buffer, b.buffer, t1.update(y as int, t1[y as int] + t1[y + 1]).remove(y + 1))
            &&& b == (App { buffer: b.buffer, ..a })
        } else {
            &&& edited_to(a.buffer, b.buffer, t1)
            &&& b.yank_register matches Some(s) && s@ == line.skip(k)
            &&& b == (App {
                buffer: b.buffer,
                yank_register: b.yank_register,
                ..a
            })
        }
    } else {
        &&& b.yank_register matches Some(s) && s@ == Seq::<char>::empty()
        &&& b == (App { yank_register: b.yank_register, ..a })
    }
}

/// `b` is `a` after `yank_current_line`: the cursor line in the yank
/// register.
pub open spec fn line_yanked(a: App, b: App) -> bool {
    &&& a.cursor_y < a.buffer.lines@.len() ==> {
        &&& b.yank_register matches Some(s) && s@ == a.buffer.text()[a.cursor_y as int]
        &&& b.status_message matches Some(m) && m@ == "Yanked 1 line"@
        &&& b == (App { yank_register: b.yank_register, status_message: b.status_message, ..a })
    }
    &&& a.cursor_y >= a.buffer.lines@.len() ==> b == a
}

/// `b` is `a` after `put_after`: the yanked text inserted as a line at the
/// cursor row, the cursor one row down at its start.
pub open spec fn put_below(a: App, b: App) -> bool {
    &&& a.yank_register matches Some(text) ==> {
        &&& inserted_line(a.buffer, b.buffer, a.cursor_y, text@)
        &&& b.status_message matches Some(m) && m@ == "Pasted"@
        &&& b == (App {
            buffer: b.buffer,
            cursor_x: 0,
            cursor_y: (a.cursor_y + 1) as usize,
            status_message: b.status_message,
            ..a
        })
    }
    &&& a.yank_register is None ==> b == a
}

/// `b` is `a` after `put_before`: the yanked text inserted as a line at the
/// cursor row, the cursor at its start.
pub open spec fn put_above(a: App, b: App) -> bool {
    &&& a.yank_register matches Some(text) ==> {
        &&& inserted_line(a.buffer, b.buffer, a.cursor_y, text@)
        &&& b.status_message matches Some(m) && m@ == "Pasted above"@
        &&& b == (App { buffer: b.buffer, cursor_x: 0, status_message: b.status_message, ..a })
    }
    &&& a.yank_register is None ==> b == a
}

/// `b` is `a` after `delete_current_line`: the cursor line deleted and
/// recorded, the cursor on the same row or the new last one.
pub open spec fn line_deleted(a: App, b: App) -> bool {
    let t = a.buffer.text();
    let y = a.cursor_y;
    if y < t.len() {
        let n = if t.len() > 1 { (t.len() - 1) as nat } else { 1 };
        &&& deleted_line(a.buffer, b.buffer, y)
        &&& b.history@ == after_push_undo(a.history@, Edit::DeleteLine { line: y, text: t[y as int] })
        &&& b == (App {
            buffer: b.buffer,
            history: b.history,
            cursor_y: if y < n - 1 { y } else { (n - 1) as usize },
            ..a
        }).snap()
    } else {
        b == a
    }
}

/// `b` is `a` after `change_current_line`: the cursor line yanked and cut
/// down to its indentation, inserting after it.
pub open spec fn line_changed(a: App, b: App) -> bool {
    let t = a.buffer.text();
    let y = a.cursor_y;
    if y < t.len() {
        exists|indent: nat|
            {
                &&& is_leading_whitespace_count(t[y as int], indent as int)
                &&& edited_to(a.buffer, b.buffer, t.update(y as int, t[y as int].take(indent as int)))
                &&& b.yank_register matches Some(s) && s@ == t[y as int]
                &&& b == (App {
                    buffer: b.buffer,
                    yank_register: b.yank_register,
                    cursor_x: indent as usize,
                    mode: AppMode::Insert,
                    ..a
                }).snap()
            }
    } else {
        b == a.snap()
    }
}

/// `b` is `a` after `insert_tab`: `tab_size` steps of `tab_step`.
pub open spec fn tab_inserted(a: App, b: App) -> bool {
    exists|states: Seq<App>|
        {
            &&& states.len() == a.config.tab_size + 1
            &&& states[0] == a
            &&& states.last() == b
            &&& forall|i: int| 0 <= i < a.config.tab_size ==> #[trigger] tab_step(states[i], states[i + 1])
        }
}

/// `b` is `a` after `replace_char(c)`: a deletion, then `c` typed.
pub open spec fn char_replaced(a: App, b: App, c: char) -> bool {
    exists|mid: App| char_deleted(a, mid) && char_inserted(mid, b, c)
}

impl App {
    /// Whether line `row` has a character at column `col`.
    fn has_char_at(&self, row: usize, col: usize) -> (r: bool)
        ensures
            r == (row < self.buffer.lines@.len() && col < self.buffer.text()[row as int].len()),
            r ==> row < self.buffer.lines@.len() && col < self.buffer.lines@[row as int]@.len(),
    {
        match self.buffer.line_len(row) {
            Some(n) => col < n,
            None => false,
        }
    }

    /// Types `c` at the cursor.
    pub fn insert_char(&mut self, c: char)
        requires
            old(self).cursor_x < usize::MAX,
        ensures
            char_inserted(*old(self), *final(self), c),
    {
        let line = self.cursor_y;
        let col = self.cursor_x;
        self.buffer.insert_char(line, col, c);
        self.history.push_undo(EditAction::InsertChar { line, col, c });
        self.cursor_x = self.cursor_x + 1;
    }

    /// Splits the line at the cursor and moves to the start of the new line.
    pub fn insert_newline(&mut self)
        requires
            old(self).cursor_y < usize::MAX,
        ensures
            newline_inserted(*old(self), *final(self)),

    {
        let line = self.cursor_y;
        let col = self.cursor_x;
        self.buffer.split_line(line, col);
        self.history.push_undo(EditAction::InsertNewline { line, col });
        self.cursor_y = self.cursor_y + 1;
        self.cursor_x = 0;
    }

    /// Types `tab_size` spaces, moving the cursor two columns after each.
    pub fn insert_tab(&mut self)
        requires
            old(self).cursor_x + 2 * old(self).config.tab_size <= usize::MAX,
        ensures
            tab_inserted(*old(self), *final(self)),

    {
        let tab_size = self.config.tab_size;
        let mut k: usize = 0;
        let ghost mut states: Seq<App> = seq![*self];
        while k < tab_size
            invariant
                k <= tab_size,
                tab_size == old(self).config.tab_size,
                old(self).cursor_x + 2 * tab_size <= usize::MAX,
                self.config == old(self).config,
                self.cursor_x == old(self).cursor_x + 2 * k,
                states.len() == k + 1,
                states[0] == *old(self),
                states.last() == *self,
                forall|i: int| 0 <= i < k ==> #[trigger] tab_step(states[i], states[i + 1]),
            decreases tab_size - k,
        {
            let ghost before = *self;
            self.insert_char(' ');
            self.cursor_x = self.cursor_x + 1;
            proof {
                assert(self.with_cursor((self.cursor_x - 1) as usize, self.cursor_y) == App {
                    cursor_x: (before.cursor_x + 1) as usize,
                    ..*self
                });
                states = states.push(*self);
            }
            k = k + 1;
        }
    }

    /// Deletes the character under the cursor, or joins the next line when
    /// the cursor is past the end of the line (`x`).
    pub fn delete_char(&mut self)
        requires
            old(self).buffer.lines@.len() >= 1,
        ensures
            char_deleted(*old(self), *final(self)),
    {
        let line = self.cursor_y;
        let col = self.cursor_x;
        if self.has_char_at(line, col) {
            let c = char_at(&self.buffer.lines[line], col);
            self.buffer.delete_char(line, col);
            self.history.push_undo(EditAction::DeleteChar { line, col, c });
        } else if self.cursor_y < self.buffer.lines.len() - 1 {
            let joint = self.buffer.join_lines(line);
            if let Some(join_point) = joint {
                self.history.push_undo(EditAction::DeleteNewline { line, col: join_point });
            }
        }
    }

    /// Deletes the character before the cursor, or joins the line to the one
    /// above when the cursor is at the start.
    pub fn handle_backspace(&mut self)
        ensures
            backspaced(*old(self), *final(self)),
    {
        if self.cursor_x > 0 {
            let line = self.cursor_y;
            let col = self.cursor_x - 1;
            if self.has_char_at(line, col) {
                let c = char_at(&self.buffer.lines[line], col);
                self.buffer.delete_char(line, col);
                self.history.push_undo(EditAction::DeleteChar { line, col, c });
                self.cursor_x = col;
            }
        } else if self.cursor_y > 0 {
            let target_line = self.cursor_y - 1;
            let joint = self.buffer.join_lines(target_line);
            if let Some(join_point) = joint {
                self.history.push_undo(EditAction::DeleteNewline { line: target_line, col: join_point });
                self.cursor_y = target_line;
                self.cursor_x = join_point;
            }
        }
    }

    /// Deletes the character under the cursor, then types `c` (`r`).
    pub fn replace_char(&mut self, c: char)
        requires
            old(self).buffer.lines@.len() >= 1,
            old(self).cursor_x < usize::MAX,
        ensures
            char_replaced(*old(self), *final(self), c),

    {
        self.delete_char();
        let ghost mid = *self;
        self.insert_char(c);
        assert(char_deleted(*old(self), mid) && char_inserted(mid, *self, c));
    }

    /// Opens an empty line below the cursor and starts inserting there (`o`).
    pub fn open_new_line_below(&mut self)
        requires
            old(self).cursor_y < usize::MAX,
        ensures
            opened_below(*old(self), *final(self)),

    {
        self.buffer.insert_line_at(self.cursor_y + 1, empty_string());
        self.cursor_y = self.cursor_y + 1;
        self.cursor_x = 0;
        self.mode = AppMode::Insert;
    }

    /// Opens an empty line above the cursor and starts inserting there (`O`).
    pub fn open_new_line_above(&mut self)
        ensures
            opened_above(*old(self), *final(self)),

    {
        self.buffer.insert_line_at(self.cursor_y, empty_string());
        self.cursor_x = 0;
        self.mode = AppMode::Insert;
    }

    /// Cuts the line from the cursor on into the yank register; an empty cut
    /// joins the next line instead (`D`, `C-k`).
    pub fn kill_line(&mut self)
        requires
            old(self).buffer.lines@.len() >= 1,
        ensures
            line_killed(*old(self), *final(self)),

    {
        let tail = self.buffer.truncate_line(self.cursor_y, self.cursor_x);
        assert(self.buffer.lines@.len() == self.buffer.text().len());
        if char_count(&tail) == 0 && self.cursor_y < self.buffer.lines.len() - 1 {
            let _ = self.buffer.join_lines(self.cursor_y);
        } else {
            self.yank_register = Some(tail);
        }
    }

    /// Copies the cursor line into the yank register (`yy`).
    pub fn yank_current_line(&mut self)
        ensures
            line_yanked(*old(self), *final(self)),

    {
        if self.cursor_y < self.buffer.lines.len() {
            let line = self.buffer.lines[self.cursor_y].clone();
            self.yank_register = Some(line);
            self.status_message = Some("Yanked 1 line".to_owned());
        }
    }

    /// Inserts the yanked text as a line at the cursor row and moves down one
    /// row (`p`).
    pub fn put_after(&mut self)
        requires
            old(self).yank_register is Some ==> old(self).cursor_y < usize::MAX,
        ensures
            put_below(*old(self), *final(self)),

    {
        match &self.yank_register {
            Some(text) => {
                let t = text.clone();
                self.buffer.insert_line_at(self.cursor_y, t);
                self.cursor_y = self.cursor_y + 1;
                self.cursor_x = 0;
                self.status_message = Some("Pasted".to_owned());
            },
            None => {},
        }
    }

    /// Inserts the yanked text as a line at the cursor row (`P`, `C-y`).
    pub fn put_before(&mut self)
        ensures
            put_above(*old(self), *final(self)),

    {
        match &self.yank_register {
            Some(text) => {
                let t = text.clone();
                self.buffer.insert_line_at(self.cursor_y, t);
                self.cursor_x = 0;
                self.status_message = Some("Pasted above".to_owned());
            },
            None => {},
        }
    }

    /// Deletes the cursor line, recording it (`dd`).
    pub fn delete_current_line(&mut self)
        ensures
            line_deleted(*old(self), *final(self)),

    {
        let line = self.cursor_y;
        if line < self.buffer.lines.len() {
            let text = self.buffer.lines[line].clone();
            let n = self.buffer.delete_line(line);
            assert(self.buffer.lines@.len() == self.buffer.text().len());
            self.history.push_undo(EditAction::DeleteLine { line, text });
            self.cursor_y = if line < n - 1 { line } else { n - 1 };
            self.snap_cursor();
        }
    }

    /// Replaces the cursor line by its indentation, yanking the line, and
    /// starts inserting after the indentation (`cc`).
    pub fn change_current_line(&mut self)
        ensures
            line_changed(*old(self), *final(self)),

    {
        if self.cursor_y < self.buffer.lines.len() {
            let y = self.cursor_y;
            let line = self.buffer.lines[y].clone();
            let indent_len = self.buffer.first_non_whitespace_idx(y);
            let indent = crate::text::char_slice(&line, 0, indent_len);
            self.yank_register = Some(line);
            let ghost t = self.buffer.text();
            self.buffer.lines.set(y, indent);
            self.buffer.mark_dirty();
            proof {
                assert(self.buffer.text() =~= t.update(y as int, t[y as int].take(indent_len as int)));
            }
            self.cursor_x = indent_len;
            self.mode = AppMode::Insert;
        }
        self.snap_cursor();
    }

    /// Cuts the line from the cursor on into the yank register, recording
    /// one deletion per character in the open group, and starts inserting
    /// (`C`).
    pub fn change_to_end_of_line(&mut self)
        requires
            old(self).cursor_y < old(self).buffer.lines@.len() ==> old(self).cursor_x
                + old(self).buffer.text()[old(self).cursor_y as int].len() <= usize::MAX,
        ensures
            changed_to_end(*old(self), *final(self)),
    {
        let line = self.cursor_y;
        let col = self.cursor_x;
        self.history.start_group();
        let tail = self.buffer.truncate_line(line, col);
        let n = char_count(&tail);
        let ghost h0 = self.history@;
        let ghost pre = *self;
        let mut i: usize = 0;
        proof {
            assert(tail@.take(0) =~= Seq::<char>::empty());
        }
        while i < n
            invariant
                *self == (App { history: self.history, ..pre }),
                i <= n,
                n == tail@.len(),
                col + n <= usize::MAX,
                self.history@ == push_all(h0, deletions(line, col, tail@.take(i as int))),
            decreases n - i,
        {
            let c = char_at(&tail, i);
            proof {
                let d = deletions(line, col, tail@.take(i + 1));
                assert(tail@.take(i + 1).drop_last() =~= tail@.take(i as int));
                assert(d == deletions(line, col, tail@.take(i as int)).push(Edit::DeleteChar { line, col: (col + i) as usize, c }));
                assert(d.drop_last() =~= deletions(line, col, tail@.take(i as int)));
            }
            self.history.push_undo(EditAction::DeleteChar { line, col: col + i, c });
            i = i + 1;
        }
        proof {
            assert(tail@.take(n as int) =~= tail@);
        }
        let ghost tv = tail@;
        self.yank_register = Some(tail);
        self.mode = AppMode::Insert;
        assert(truncated(old(self).buffer, self.buffer, line, col, tv));
        assert(self.history@ == push_all(after_start_group(old(self).history@), deletions(line, col, tv)));
        assert(self.yank_register matches Some(s) && s@ == tv);
        assert(*self == (App {
                            buffer: self.buffer,
                            history: self.history,
                            yank_register: self.yank_register,
                            mode: AppMode::Insert,
                            ..*old(self)
                        }));
    }

    /// Inserts `tab_size` spaces at the start of the cursor line as one
    /// group, and moves to the first non-blank (`>>`).
    pub fn indent_current_line(&mut self)
        ensures
            indented(*old(self), *final(self)),
    {
        let tab_size = self.config.tab_size;
        let y = self.cursor_y;
        self.history.start_group();
        let ghost h0 = self.history@;
        let ghost b0 = self.buffer;
        let ghost t = self.buffer.text();
        let mut i: usize = 0;
        while i < tab_size
            invariant
                i <= tab_size,
                y == old(self).cursor_y,
                tab_size == old(self).config.tab_size,
                t == b0.text(),
                self.history@ == push_all(h0, space_insertions(y, i as nat)),
                y < t.len() && i > 0 ==> edited_to(b0, self.buffer, t.update(y as int, spaces(i as nat) + t[y as int])),
                !(y < t.len() && i > 0) ==> self.buffer == b0,
                *self == (App { buffer: self.buffer, history: self.history, ..*old(self) }),
            decreases tab_size - i,
        {
            proof {
                let d = space_insertions(y, (i + 1) as nat);
                assert(d.drop_last() =~= space_insertions(y, i as nat));
            }
            let ghost before = self.buffer;
            self.buffer.insert_char(y, i, ' ');
            proof {
                if y < t.len() {
                    let line = spaces(i as nat) + t[y as int];
                    if i > 0 {
                        assert(before.text()[y as int] == line);
                    } else {
                        assert(spaces(0) + t[y as int] =~= t[y as int]);
                    }
                    assert(clamp_col(line, i as int) == i);
                    assert(line.insert(i as int, ' ') =~= spaces((i + 1) as nat) + t[y as int]);
                    assert(before.text().update(y as int, line.insert(i as int, ' ')) =~= t.update(y as int, spaces((i + 1) as nat) + t[y as int]));
                }
            }
            self.history.push_undo(EditAction::InsertChar { line: y, col: i, c: ' ' });
            i = i + 1;
        }
        assert(self.history@ == push_all(after_start_group(old(self).history@), space_insertions(y, tab_size as nat)));
        self.history.finish_group();
        assert(self.buffer.text().len() == self.buffer.lines@.len());
        self.cursor_x = self.buffer.first_non_whitespace_idx(y);
        assert(self.history@ == after_finish_group(push_all(after_start_group(old(self).history@), space_insertions(y, tab_size as nat))));
        assert(y < t.len() && tab_size > 0 ==> edited_to(old(self).buffer, self.buffer, t.update(y as int, spaces(tab_size as nat) + t[y as int])));
        assert(!(y < t.len() && tab_size > 0) ==> self.buffer == old(self).buffer);
        assert(*self == (App {
                    buffer: self.buffer,
                    history: self.history,
                    cursor_x: self.cursor_x,
                    ..*old(self)
                }));
        assert(y < t.len() ==> is_leading_whitespace_count(self.buffer.text()[y as int], self.cursor_x as int));
        assert(y >= t.len() ==> self.cursor_x == 0);
    }

    /// Removes up to `tab_size` leading spaces from the cursor line as one
    /// group, and moves to the first non-blank (`<<`).
    pub fn unindent_current_line(&mut self)
        ensures
            unindented(*old(self), *final(self)),
    {
        let tab_size = self.config.tab_size;
        let y = self.cursor_y;
        self.history.start_group();
        let spaces = self.buffer.remove_leading_spaces(y, tab_size);
        let ghost h0 = self.history@;
        let ghost pre = *self;
        let mut i: usize = 0;
        while i < spaces
            invariant
                *self == (App { history: self.history, ..pre }),
                i <= spaces,
                self.history@ == push_all(h0, space_deletions(y, i as nat)),
            decreases spaces - i,
        {
            proof {
                let d = space_deletions(y, (i + 1) as nat);
                assert(d.drop_last() =~= space_deletions(y, i as nat));
            }
            self.history.push_undo(EditAction::DeleteChar { line: y, col: 0, c: ' ' });
            i = i + 1;
        }
        assert(self.history@ == push_all(after_start_group(old(self).history@), space_deletions(y, spaces as nat)));
        self.history.finish_group();
        assert(self.buffer.text().len() == self.buffer.lines@.len());
        self.cursor_x = self.buffer.first_non_whitespace_idx(y);
        assert(self.history@ == after_finish_group(push_all(after_start_group(old(self).history@), space_deletions(y, spaces as nat))));
    }
}

} // verus!
