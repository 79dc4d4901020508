//! Applying recorded edits forwards (redo) and backwards (undo).
use vstd::prelude::*;
use crate::app::App;
use crate::buff::clamp_col;
use crate::edit::char_inserted;
use crate::history::{
    mergeable, after_finish_group, after_push_undo, edit_of, edits_of, lemma_edits_of_len_index, reversed, reversed_all,
    Edit, EditAction, History,
};

verus! {

/// The part of the editor that applying an edit changes: the text, the
/// cached whole text, the cursor and the history.
pub struct EditState {
    pub text: Seq<Seq<char>>,
    pub stored: Option<Seq<char>>,
    pub x: usize,
    pub y: usize,
    pub history: History,
}

impl App {
    pub open spec fn edit_state(self) -> EditState {
        EditState {
            text: self.buffer.text(),
            stored: self.buffer.stored_text(),
            x: self.cursor_x,
            y: self.cursor_y,
            history: self.history@,
        }
    }
}

/// The core with its text changed to `t` (the cache no longer current).
pub open spec fn with_text(c: EditState, t: Seq<Seq<char>>) -> EditState {
    EditState { text: t, stored: None, ..c }
}

pub open spec fn core_insert_char(c: EditState, l: usize, col: usize, ch: char) -> EditState {
    if l < c.text.len() {
        let line = c.text[l as int];
        with_text(c, c.text.update(l as int, line.insert(clamp_col(line, col as int), ch)))
    } else {
        c
    }
}

pub open spec fn core_delete_char(c: EditState, l: usize, col: usize) -> EditState {
    if l < c.text.len() && col < c.text[l as int].len() {
        with_text(c, c.text.update(l as int, c.text[l as int].remove(col as int)))
    } else {
        c
    }
}

/// `delete_line(l)`; `None` where it would fail (no lines, or a missing
/// line when there are several).
pub open spec fn core_delete_line(c: EditState, l: usize) -> Option<EditState> {
    if c.text.len() == 0 || (c.text.len() > 1 && l >= c.text.len()) {
        None
    } else if c.text.len() > 1 {
        Some(with_text(c, c.text.remove(l as int)))
    } else {
        Some(with_text(c, seq![Seq::<char>::empty()]))
    }
}

pub open spec fn core_insert_line(c: EditState, l: usize, s: Seq<char>) -> EditState {
    if l <= c.text.len() {
        with_text(c, c.text.insert(l as int, s))
    } else {
        with_text(c, c.text.push(s))
    }
}

/// `insert_newline` at the cursor: the line split, the split recorded, the
/// cursor at the start of the next line.
pub open spec fn core_newline(c: EditState) -> Option<EditState> {
    if c.y < usize::MAX {
        let split = if c.y < c.text.len() {
            let line = c.text[c.y as int];
            let k = clamp_col(line, c.x as int);
            with_text(c, c.text.update(c.y as int, line.take(k)).insert(c.y + 1, line.skip(k)))
        } else {
            c
        };
        Some(EditState {
            history: after_push_undo(c.history, Edit::InsertNewline { line: c.y, col: c.x }),
            x: 0,
            y: (c.y + 1) as usize,
            ..split
        })
    } else {
        None
    }
}

/// The core after `apply_action(e)` (redo); `None` where it would fail.
pub open spec fn apply_edit(c: EditState, e: Edit) -> Option<EditState>
    decreases e,
{
    match e {
        Edit::InsertChar { line, col, c: ch } => if col < usize::MAX {
            Some(EditState { y: line, x: (col + 1) as usize, ..core_insert_char(c, line, col, ch) })
        } else {
            None
        },
        Edit::DeleteChar { line, col, .. } => Some(EditState { y: line, x: col, ..core_delete_char(c, line, col) }),
        Edit::InsertNewline { line, .. } => match core_newline(c) {
            Some(c2) => if line < usize::MAX {
                Some(EditState { y: (line + 1) as usize, x: 0, ..c2 })
            } else {
                None
            },
            None => None,
        },
        Edit::DeleteNewline { line, col } => match core_delete_line(c, line) {
            Some(c2) => Some(EditState { y: line, x: col, ..c2 }),
            None => None,
        },
        Edit::InsertLine { line, text } => Some(EditState { y: line, ..core_insert_line(c, line, text) }),
        Edit::DeleteLine { line, .. } => match core_delete_line(c, line) {
            Some(c2) => Some(
                EditState { y: if line < c2.text.len() - 1 { line } else { (c2.text.len() - 1) as usize }, ..c2 },
            ),
            None => None,
        },
        Edit::Group(s) => apply_all(c, s),
    }
}

/// The core after applying each edit of `s` in order.
pub open spec fn apply_all(c: EditState, s: Seq<Edit>) -> Option<EditState>
    decreases s,
{
    if s.len() == 0 {
        Some(c)
    } else {
        match apply_all(c, s.drop_last()) {
            Some(c2) => apply_edit(c2, s.last()),
            None => None,
        }
    }
}

/// The core after `apply_action_reverse(e)` (undo); `None` where it would
/// fail.
pub open spec fn apply_edit_reverse(c: EditState, e: Edit) -> Option<EditState>
    decreases e,
{
    match e {
        Edit::InsertChar { line, col, .. } => Some(EditState { y: line, x: col, ..core_delete_char(c, line, col) }),
        Edit::DeleteChar { line, col, c: ch } => if col < usize::MAX {
            Some(EditState { y: line, x: (col + 1) as usize, ..core_insert_char(c, line, col, ch) })
        } else {
            None
        },
        Edit::InsertNewline { line, col } => match core_delete_line(c, line) {
            Some(c2) => Some(EditState { y: line, x: col, ..c2 }),
            None => None,
        },
        Edit::DeleteNewline { line, .. } => match core_newline(c) {
            Some(c2) => if line < usize::MAX {
                Some(EditState { y: (line + 1) as usize, x: 0, ..c2 })
            } else {
                None
            },
            None => None,
        },
        Edit::InsertLine { line, .. } => match core_delete_line(c, line) {
            Some(c2) => Some(
                EditState { y: if line < c2.text.len() - 1 { line } else { (c2.text.len() - 1) as usize }, ..c2 },
            ),
            None => None,
        },
        Edit::DeleteLine { line, text } => Some(EditState { y: line, ..core_insert_line(c, line, text) }),
        Edit::Group(s) => apply_all_reverse(c, s),
    }
}

/// The core after undoing each edit of `s`, last first.
pub open spec fn apply_all_reverse(c: EditState, s: Seq<Edit>) -> Option<EditState>
    decreases s,
{
    if s.len() == 0 {
        Some(c)
    } else {
        match apply_all_reverse(c, s.drop_first()) {
            Some(c2) => apply_edit_reverse(c2, s[0]),
            None => None,
        }
    }
}

proof fn lemma_apply_all_prefix(c: EditState, s: Seq<Edit>, i: int)
    requires
        0 <= i <= s.len(),
        apply_all(c, s) is Some,
    ensures
        apply_all(c, s.take(i)) is Some,
    decreases s.len() - i,
{
    if i < s.len() {
        assert(s.take(s.len() as int) =~= s);
        lemma_apply_all_prefix(c, s, i + 1);
        assert(s.take(i + 1).drop_last() =~= s.take(i));
    } else {
        assert(s.take(i) =~= s);
    }
}

proof fn lemma_apply_all_reverse_suffix(c: EditState, s: Seq<Edit>, i: int)
    requires
        0 <= i <= s.len(),
        apply_all_reverse(c, s) is Some,
    ensures
        apply_all_reverse(c, s.subrange(i, s.len() as int)) is Some,
    decreases i,
{
    if i > 0 {
        lemma_apply_all_reverse_suffix(c, s, i - 1);
        assert(s.subrange(i - 1, s.len() as int).drop_first() =~= s.subrange(i, s.len() as int));
    } else {
        assert(s.subrange(0, s.len() as int) =~= s);
    }
}

/// `b` is `a` after `undo`: the top of the undo stack (after closing the
/// open group) is undone and moved to the redo stack, with the message
/// "Undo"; with nothing to undo, only the group is closed and the message is
/// "Already at oldest change".
pub open spec fn undone(a: App, b: App) -> bool {
    let h = after_finish_group(a.history@);
    if h.undo.len() > 0 {
        let top = h.undo.last();
        let popped = History { undo: h.undo.drop_last(), redo: h.redo, group: None };
        let s1 = apply_edit_reverse(EditState { history: popped, ..a.edit_state() }, top)->0;
        &&& b.edit_state() == EditState {
            history: History { undo: s1.history.undo, redo: s1.history.redo.push(top), group: s1.history.group },
            ..s1
        }
        &&& b.buffer.modified
        &&& (b.status_message matches Some(m) && m@ == "Undo"@)
        &&& b == App {
            buffer: b.buffer,
            history: b.history,
            cursor_x: b.cursor_x,
            cursor_y: b.cursor_y,
            status_message: b.status_message,
            ..a
        }
    } else {
        &&& b.history@ == h
        &&& (b.status_message matches Some(m) && m@ == "Already at oldest change"@)
        &&& b == App { history: b.history, status_message: b.status_message, ..a }
    }
}

/// `undo` can run: the edit to undo applies.
pub open spec fn can_undo(a: App) -> bool {
    let h = after_finish_group(a.history@);
    h.undo.len() > 0 ==> apply_edit_reverse(
        EditState { history: History { undo: h.undo.drop_last(), redo: h.redo, group: None }, ..a.edit_state() },
        h.undo.last(),
    ) is Some
}

/// `b` is `a` after `redo`: the top of the redo stack is applied, and its
/// reverse is put back on the redo stack, with the message "Redo"; with
/// nothing to redo the message is "Already at newest change".
pub open spec fn redone(a: App, b: App) -> bool {
    let h = a.history@;
    if h.redo.len() > 0 {
        let top = h.redo.last();
        let popped = History { undo: h.undo, redo: h.redo.drop_last(), group: h.group };
        let s1 = apply_edit(EditState { history: popped, ..a.edit_state() }, top)->0;
        &&& b.edit_state() == EditState {
            history: History {
                undo: s1.history.undo,
                redo: s1.history.redo.push(reversed(top)),
                group: s1.history.group,
            },
            ..s1
        }
        &&& b.buffer.modified
        &&& (b.status_message matches Some(m) && m@ == "Redo"@)
        &&& b == App {
            buffer: b.buffer,
            history: b.history,
            cursor_x: b.cursor_x,
            cursor_y: b.cursor_y,
            status_message: b.status_message,
            ..a
        }
    } else {
        &&& b.history@ == h
        &&& (b.status_message matches Some(m) && m@ == "Already at newest change"@)
        &&& b == App { history: b.history, status_message: b.status_message, ..a }
    }
}

/// `redo` can run: the edit to redo applies.
pub open spec fn can_redo(a: App) -> bool {
    let h = a.history@;
    h.redo.len() > 0 ==> apply_edit(
        EditState { history: History { undo: h.undo, redo: h.redo.drop_last(), group: h.group }, ..a.edit_state() },
        h.redo.last(),
    ) is Some
}

/// Undoing an edit is applying its reverse.
pub proof fn law_undo_is_applying_reverse(c: EditState, e: Edit)
    ensures
        apply_edit_reverse(c, e) == apply_edit(c, reversed(e)),
    decreases e,
{
    if let Edit::Group(s) = e {
        law_undo_all_is_applying_reverse(c, s);
    }
}

/// Undoing a sequence of edits is applying their reverses.
pub proof fn law_undo_all_is_applying_reverse(c: EditState, s: Seq<Edit>)
    ensures
        apply_all_reverse(c, s) == apply_all(c, reversed_all(s)),
    decreases s,
{
    if s.len() == 0 {
        assert(reversed_all(s) =~= Seq::<Edit>::empty());
    } else {
        let r = reversed_all(s.drop_first());
        law_undo_all_is_applying_reverse(c, s.drop_first());
        assert(reversed_all(s) == r.push(reversed(s[0])));
        assert(r.push(reversed(s[0])).drop_last() =~= r);
        match apply_all(c, r) {
            Some(c2) => {
                law_undo_is_applying_reverse(c2, s[0]);
            },
            None => {},
        }
    }
}

/// Undoing a typed character gives back the text, when it was typed inside
/// the line or at its end.
pub proof fn law_undo_restores_typed_char(c: EditState, line: usize, col: usize, ch: char)
    requires
        line < c.text.len(),
        col <= c.text[line as int].len(),
        col < usize::MAX,
    ensures
        ({
            let e = Edit::InsertChar { line, col, c: ch };
            let c1 = apply_edit(c, e)->0;
            &&& apply_edit(c, e) is Some
            &&& apply_edit_reverse(c1, e) is Some
            &&& apply_edit_reverse(c1, e)->0.text == c.text
            &&& apply_edit_reverse(c1, e)->0.x == col
            &&& apply_edit_reverse(c1, e)->0.y == line
        }),
{
    crate::buff::law_insert_then_delete_restores(c.text, line as int, col as int, ch);
}

/// Undoing a deleted character gives back the text.
pub proof fn law_undo_restores_deleted_char(c: EditState, line: usize, col: usize, ch: char)
    requires
        line < c.text.len(),
        col < c.text[line as int].len(),
        col < usize::MAX,
        ch == c.text[line as int][col as int],
    ensures
        ({
            let e = Edit::DeleteChar { line, col, c: ch };
            let c1 = apply_edit(c, e)->0;
            &&& apply_edit_reverse(c1, e) is Some
            &&& apply_edit_reverse(c1, e)->0.text == c.text
        }),
{
    crate::buff::law_delete_then_insert_restores(c.text, line as int, col as int);
}

/// Undoing the deletion of a line (of several) puts the line back.
pub proof fn law_undo_restores_deleted_line(c: EditState, line: usize)
    requires
        1 < c.text.len(),
        line < c.text.len(),
    ensures
        ({
            let e = Edit::DeleteLine { line, text: c.text[line as int] };
            let c1 = apply_edit(c, e)->0;
            &&& apply_edit(c, e) is Some
            &&& apply_edit_reverse(c1, e) is Some
            &&& apply_edit_reverse(c1, e)->0.text == c.text
        }),
{
    assert(c.text.remove(line as int).insert(line as int, c.text[line as int]) =~= c.text);
}

/// Undoing the insertion of a line (at an existing row, or just after the
/// last) takes it out again.
pub proof fn law_undo_restores_inserted_line(c: EditState, line: usize, text: Seq<char>)
    requires
        1 <= c.text.len(),
        line <= c.text.len(),
    ensures
        ({
            let e = Edit::InsertLine { line, text };
            let c1 = apply_edit(c, e)->0;
            &&& apply_edit(c, e) is Some
            &&& apply_edit_reverse(c1, e) is Some
            &&& apply_edit_reverse(c1, e)->0.text == c.text
        }),
{
    assert(c.text.insert(line as int, text).remove(line as int) =~= c.text);
}

/// Undoing a line break typed at the start of a line (or in an empty line)
/// gives back the text: the empty line it left is removed.
pub proof fn law_undo_restores_newline_at_line_start(c: EditState)
    requires
        c.y < c.text.len(),
        c.y < usize::MAX,
        clamp_col(c.text[c.y as int], c.x as int) == 0,
    ensures
        ({
            let e = Edit::InsertNewline { line: c.y, col: c.x };
            let c1 = apply_edit(c, e)->0;
            &&& apply_edit(c, e) is Some
            &&& apply_edit_reverse(c1, e) is Some
            &&& apply_edit_reverse(c1, e)->0.text == c.text
        }),
{
    let line = c.text[c.y as int];
    assert(line.take(0) =~= Seq::<char>::empty());
    assert(line.skip(0) =~= line);
    let t1 = c.text.update(c.y as int, line.take(0)).insert(c.y + 1, line.skip(0));
    assert(t1.remove(c.y as int) =~= c.text);
}

/// Typing a character and then undoing gives back the text and the cursor,
/// leaves the undo stack as it was and puts the typing on the redo stack
/// (with no group open, and the typing not merged into the previous edit).
pub proof fn law_undo_after_typing(a: App, b: App, d: App, ch: char)
    requires
        char_inserted(a, b, ch),
        can_undo(b),
        undone(b, d),
        a.history@.group is None,
        !(a.history@.undo.len() > 0 && mergeable(
            a.history@.undo.last(),
            Edit::InsertChar { line: a.cursor_y, col: a.cursor_x, c: ch },
        )),
        a.cursor_y < a.buffer.text().len(),
        a.cursor_x <= a.buffer.text()[a.cursor_y as int].len(),
        a.cursor_x < usize::MAX,
    ensures
        d.buffer.text() == a.buffer.text(),
        d.cursor_x == a.cursor_x,
        d.cursor_y == a.cursor_y,
        d.history@.undo == a.history@.undo,
        d.history@.redo == seq![Edit::InsertChar { line: a.cursor_y, col: a.cursor_x, c: ch }],
{
    let e = Edit::InsertChar { line: a.cursor_y, col: a.cursor_x, c: ch };
    assert(b.history@.undo == a.history@.undo.push(e));
    assert(b.history@.undo.drop_last() =~= a.history@.undo);
    crate::buff::law_insert_then_delete_restores(a.buffer.text(), a.cursor_y as int, a.cursor_x as int, ch);
    assert(Seq::<Edit>::empty().push(e) =~= seq![e]);
}

/// `b` is `a` with the core changed to `c`, the buffer marked modified, and
/// everything else kept.
pub open spec fn core_changed(a: App, b: App, c: EditState) -> bool {
    &&& b.edit_state() == c
    &&& b.buffer.modified
    &&& b == App { buffer: b.buffer, history: b.history, cursor_x: b.cursor_x, cursor_y: b.cursor_y, ..a }
}

impl App {
    /// Redoes one recorded edit; see `apply_edit`.
    pub fn apply_action(&mut self, action: &EditAction)
        requires
            apply_edit(old(self).edit_state(), action@) is Some,
        ensures
            core_changed(*old(self), *final(self), apply_edit(old(self).edit_state(), action@)->0),
        decreases action,
    {
        proof {
            crate::history::lemma_edit_of_unfold(*action);
        }
        match action {
            EditAction::InsertChar { line, col, c } => {
                self.buffer.insert_char(*line, *col, *c);
                self.cursor_y = *line;
                self.cursor_x = *col + 1;
            },
            EditAction::DeleteChar { line, col, .. } => {
                self.buffer.delete_char(*line, *col);
                self.cursor_y = *line;
                self.cursor_x = *col;
            },
            EditAction::InsertNewline { line, .. } => {
                self.insert_newline();
                self.cursor_y = *line + 1;
                self.cursor_x = 0;
            },
            EditAction::DeleteNewline { line, col } => {
                self.buffer.delete_line(*line);
                self.cursor_y = *line;
                self.cursor_x = *col;
            },
            EditAction::InsertLine { line, text } => {
                self.buffer.insert_line_at(*line, text.clone());
                self.cursor_y = *line;
            },
            EditAction::DeleteLine { line, .. } => {
                let n = self.buffer.delete_line(*line);
                self.cursor_y = if *line < n - 1 { *line } else { n - 1 };
            },
            EditAction::Group(actions) => {
                let ghost es = edits_of(actions@);
                let ghost c0 = self.edit_state();
                proof {
                    lemma_edits_of_len_index(actions@);
                    assert(es.take(0) =~= Seq::<Edit>::empty());
                }
                let mut i: usize = 0;
                #[verifier::loop_isolation(false)]
                while i < actions.len()
                    invariant
                        i <= actions@.len(),
                        apply_all(c0, es.take(i as int)) is Some,
                        self.edit_state() == apply_all(c0, es.take(i as int))->0,
                        i > 0 ==> self.buffer.modified,
                        *self == (App {
                            buffer: self.buffer,
                            history: self.history,
                            cursor_x: self.cursor_x,
                            cursor_y: self.cursor_y,
                            ..*old(self)
                        }),
                    decreases actions@.len() - i,
                {
                    proof {
                        lemma_apply_all_prefix(c0, es, i + 1);
                        assert(es.take(i + 1).drop_last() =~= es.take(i as int));
                        assert(es.take(i + 1).last() == edit_of(actions@[i as int]));
                    }
                    assert(decreases_to!(action => actions@[i as int]));
                    self.apply_action(&actions[i]);
                    i = i + 1;
                }
                proof {
                    assert(es.take(actions@.len() as int) =~= es);
                }
            },
        }
        self.buffer.modified = true;
    }

    /// Undoes one recorded edit; see `apply_edit_reverse`.
    pub fn apply_action_reverse(&mut self, action: &EditAction)
        requires
            apply_edit_reverse(old(self).edit_state(), action@) is Some,
        ensures
            core_changed(*old(self), *final(self), apply_edit_reverse(old(self).edit_state(), action@)->0),
        decreases action,
    {
        proof {
            crate::history::lemma_edit_of_unfold(*action);
        }
        match action {
            EditAction::InsertChar { line, col, .. } => {
                self.buffer.delete_char(*line, *col);
                self.cursor_y = *line;
                self.cursor_x = *col;
            },
            EditAction::DeleteChar { line, col, c } => {
                self.buffer.insert_char(*line, *col, *c);
                self.cursor_y = *line;
                self.cursor_x = *col + 1;
            },
            EditAction::InsertNewline { line, col } => {
                self.buffer.delete_line(*line);
                self.cursor_y = *line;
                self.cursor_x = *col;
            },
            EditAction::DeleteNewline { line, .. } => {
                self.insert_newline();
                self.cursor_y = *line + 1;
                self.cursor_x = 0;
            },
            EditAction::InsertLine { line, .. } => {
                let n = self.buffer.delete_line(*line);
                self.cursor_y = if *line < n - 1 { *line } else { n - 1 };
            },
            EditAction::DeleteLine { line, text } => {
                self.buffer.insert_line_at(*line, text.clone());
                self.cursor_y = *line;
            },
            EditAction::Group(actions) => {
                let ghost es = edits_of(actions@);
                let ghost c0 = self.edit_state();
                let n = actions.len();
                proof {
                    lemma_edits_of_len_index(actions@);
                    assert(es.subrange(n as int, n as int) =~= Seq::<Edit>::empty());
                }
                let mut i: usize = n;
                #[verifier::loop_isolation(false)]
                while i > 0
                    invariant
                        i <= n,
                        n == actions@.len(),
                        apply_all_reverse(c0, es.subrange(i as int, n as int)) is Some,
                        self.edit_state() == apply_all_reverse(c0, es.subrange(i as int, n as int))->0,
                        i < n ==> self.buffer.modified,
                        *self == (App {
                            buffer: self.buffer,
                            history: self.history,
                            cursor_x: self.cursor_x,
                            cursor_y: self.cursor_y,
                            ..*old(self)
                        }),
                    decreases i,
                {
                    proof {
                        lemma_apply_all_reverse_suffix(c0, es, i - 1);
                        assert(es.subrange(i - 1, n as int).drop_first() =~= es.subrange(i as int, n as int));
                        assert(es.subrange(i - 1, n as int)[0] == edit_of(actions@[i - 1]));
                    }
                    assert(decreases_to!(action => actions@[i - 1]));
                    self.apply_action_reverse(&actions[i - 1]);
                    i = i - 1;
                }
                proof {
                    assert(es.subrange(0, n as int) =~= es);
                }
            },
        }
        self.buffer.modified = true;
    }

    /// Undoes the last recorded edit (`u`, `C-/`).
    pub fn undo(&mut self)
        requires
            can_undo(*old(self)),
        ensures
            undone(*old(self), *final(self)),
    {
        match self.history.pop_undo() {
            Some(action) => {
                self.apply_action_reverse(&action);
                self.history.push_redo(action);
                self.status_message = Some("Undo".to_owned());
            },
            None => {
                self.status_message = Some("Already at oldest change".to_owned());
            },
        }
    }

    /// Redoes the last undone edit (`C-r`).
    pub fn redo(&mut self)
        requires
            can_redo(*old(self)),
        ensures
            redone(*old(self), *final(self)),
    {
        match self.history.pop_redo() {
            Some(action) => {
                let undo_action = action.reverse();
                self.apply_action(&action);
                self.history.push_undo_from_redo(undo_action);
                self.status_message = Some("Redo".to_owned());
            },
            None => {
                self.status_message = Some("Already at newest change".to_owned());
            },
        }
    }
}

/// Undoing a typed character and redoing it gives back the text as typed.
pub proof fn law_redo_after_undo_of_typing(c: EditState, line: usize, col: usize, ch: char)
    requires
        line < c.text.len(),
        col <= c.text[line as int].len(),
        col < usize::MAX,
    ensures
        ({
            let e = Edit::InsertChar { line, col, c: ch };
            let typed = apply_edit(c, e)->0;
            let back = apply_edit_reverse(typed, e)->0;
            &&& apply_edit(back, e) is Some
            &&& apply_edit(back, e)->0.text == typed.text
        }),
{
    law_undo_restores_typed_char(c, line, col, ch);
}

} // verus!
