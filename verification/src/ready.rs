//! Deciding, before a key is handled, that handling it cannot fail: that an
//! edit to undo or redo applies, and that no line or column count runs out.
use vstd::prelude::*;
use crate::app::{App, AppMode};
use crate::emacs::{emacs_edit_ready, emacs_ready};
use crate::handler::KeyHandler;
use crate::keys::{KeyCode, KeyEvent};
use crate::vim::{change_end_ready, vim_insert_ready, vim_normal_ready, vim_ready, word_back_ready};
use crate::history::{
    after_finish_group, edit_of, edits_of, lemma_edits_of_len_index, Edit, EditAction, History,
};
use crate::undo::{
    apply_all, apply_all_reverse, apply_edit, apply_edit_reverse, can_redo, can_undo, EditState,
};

verus! {

/// The number of lines left after deleting line `l` of `n`; `None` where the
/// deletion fails (no lines, or a missing line when there are several).
pub open spec fn count_after_delete(n: nat, l: usize) -> Option<nat> {
    if n == 0 || (n > 1 && l >= n) {
        None
    } else if n > 1 {
        Some((n - 1) as nat)
    } else {
        Some(1)
    }
}

/// The line count and cursor row after undoing `e` from `n` lines with the
/// cursor on row `y`; `None` where undoing fails or would need more than
/// `usize::MAX` lines or a row or column past `usize::MAX`.
pub open spec fn undo_shape(n: nat, y: usize, e: Edit) -> Option<(nat, usize)>
    decreases e,
{
    match e {
        Edit::InsertChar { line, .. } => Some((n, line)),
        Edit::DeleteChar { line, col, .. } => if col < usize::MAX {
            Some((n, line))
        } else {
            None
        },
        Edit::InsertNewline { line, .. } => match count_after_delete(n, line) {
            Some(n2) => Some((n2, line)),
            None => None,
        },
        Edit::DeleteNewline { line, .. } => {
            let n2 = if y < n { n + 1 } else { n };
            if y < usize::MAX && line < usize::MAX && n2 <= usize::MAX {
                Some((n2 as nat, (line + 1) as usize))
            } else {
                None
            }
        },
        Edit::InsertLine { line, .. } => match count_after_delete(n, line) {
            Some(n2) => Some((n2, if line < n2 - 1 { line } else { (n2 - 1) as usize })),
            None => None,
        },
        Edit::DeleteLine { line, .. } => if n + 1 <= usize::MAX {
            Some(((n + 1) as nat, line))
        } else {
            None
        },
        Edit::Group(s) => undo_shape_all(n, y, s),
    }
}

/// `undo_shape` for the edits of a group, last first.
pub open spec fn undo_shape_all(n: nat, y: usize, s: Seq<Edit>) -> Option<(nat, usize)>
    decreases s,
{
    if s.len() == 0 {
        Some((n, y))
    } else {
        match undo_shape_all(n, y, s.drop_first()) {
            Some((n2, y2)) => undo_shape(n2, y2, s[0]),
            None => None,
        }
    }
}

/// The line count and cursor row after redoing `e`; `None` as for
/// `undo_shape`.
pub open spec fn redo_shape(n: nat, y: usize, e: Edit) -> Option<(nat, usize)>
    decreases e,
{
    match e {
        Edit::InsertChar { line, col, .. } => if col < usize::MAX {
            Some((n, line))
        } else {
            None
        },
        Edit::DeleteChar { line, .. } => Some((n, line)),
        Edit::InsertNewline { line, .. } => {
            let n2 = if y < n { n + 1 } else { n };
            if y < usize::MAX && line < usize::MAX && n2 <= usize::MAX {
                Some((n2 as nat, (line + 1) as usize))
            } else {
                None
            }
        },
        Edit::DeleteNewline { line, .. } => match count_after_delete(n, line) {
            Some(n2) => Some((n2, line)),
            None => None,
        },
        Edit::InsertLine { line, .. } => if n + 1 <= usize::MAX {
            Some(((n + 1) as nat, line))
        } else {
            None
        },
        Edit::DeleteLine { line, .. } => match count_after_delete(n, line) {
            Some(n2) => Some((n2, if line < n2 - 1 { line } else { (n2 - 1) as usize })),
            None => None,
        },
        Edit::Group(s) => redo_shape_all(n, y, s),
    }
}

/// `redo_shape` for the edits of a group, first first.
pub open spec fn redo_shape_all(n: nat, y: usize, s: Seq<Edit>) -> Option<(nat, usize)>
    decreases s,
{
    if s.len() == 0 {
        Some((n, y))
    } else {
        match redo_shape_all(n, y, s.drop_last()) {
            Some((n2, y2)) => redo_shape(n2, y2, s.last()),
            None => None,
        }
    }
}

proof fn lemma_undo_shape(c: EditState, e: Edit)
    requires
        undo_shape(c.text.len(), c.y, e) is Some,
    ensures
        apply_edit_reverse(c, e) is Some,
        undo_shape(c.text.len(), c.y, e) == Some(
            (apply_edit_reverse(c, e)->0.text.len(), apply_edit_reverse(c, e)->0.y),
        ),
    decreases e,
{
    if let Edit::Group(s) = e {
        lemma_undo_shape_all(c, s);
    }
}

proof fn lemma_undo_shape_all(c: EditState, s: Seq<Edit>)
    requires
        undo_shape_all(c.text.len(), c.y, s) is Some,
    ensures
        apply_all_reverse(c, s) is Some,
        undo_shape_all(c.text.len(), c.y, s) == Some(
            (apply_all_reverse(c, s)->0.text.len(), apply_all_reverse(c, s)->0.y),
        ),
    decreases s,
{
    if s.len() > 0 {
        lemma_undo_shape_all(c, s.drop_first());
        let c2 = apply_all_reverse(c, s.drop_first())->0;
        lemma_undo_shape(c2, s[0]);
    }
}

proof fn lemma_redo_shape(c: EditState, e: Edit)
    requires
        redo_shape(c.text.len(), c.y, e) is Some,
    ensures
        apply_edit(c, e) is Some,
        redo_shape(c.text.len(), c.y, e) == Some((apply_edit(c, e)->0.text.len(), apply_edit(c, e)->0.y)),
    decreases e,
{
    if let Edit::Group(s) = e {
        lemma_redo_shape_all(c, s);
    }
}

proof fn lemma_redo_shape_all(c: EditState, s: Seq<Edit>)
    requires
        redo_shape_all(c.text.len(), c.y, s) is Some,
    ensures
        apply_all(c, s) is Some,
        redo_shape_all(c.text.len(), c.y, s) == Some((apply_all(c, s)->0.text.len(), apply_all(c, s)->0.y)),
    decreases s,
{
    if s.len() > 0 {
        lemma_redo_shape_all(c, s.drop_last());
        let c2 = apply_all(c, s.drop_last())->0;
        lemma_redo_shape(c2, s.last());
    }
}

/// `undo` in the state `a` applies its edit, and no line count, row or
/// column runs past `usize::MAX` on the way.
pub open spec fn undo_ready(a: App) -> bool {
    let h = after_finish_group(a.history@);
    h.undo.len() > 0 ==> undo_shape(a.buffer.text().len(), a.cursor_y, h.undo.last()) is Some
}

/// `redo` in the state `a` applies its edit, and no line count, row or
/// column runs past `usize::MAX` on the way.
pub open spec fn redo_ready(a: App) -> bool {
    let h = a.history@;
    h.redo.len() > 0 ==> redo_shape(a.buffer.text().len(), a.cursor_y, h.redo.last()) is Some
}

/// Where `undo_ready` holds, `undo` can run.
pub proof fn lemma_undo_ready(a: App)
    requires
        undo_ready(a),
    ensures
        can_undo(a),
{
    let h = after_finish_group(a.history@);
    if h.undo.len() > 0 {
        let c = EditState { history: History { undo: h.undo.drop_last(), redo: h.redo, group: None }, ..a.edit_state() };
        lemma_undo_shape(c, h.undo.last());
    }
}

/// Where `redo_ready` holds, `redo` can run.
pub proof fn lemma_redo_ready(a: App)
    requires
        redo_ready(a),
    ensures
        can_redo(a),
{
    let h = a.history@;
    if h.redo.len() > 0 {
        let c = EditState { history: History { undo: h.undo, redo: h.redo.drop_last(), group: h.group }, ..a.edit_state() };
        lemma_redo_shape(c, h.redo.last());
    }
}

/// The line count left after deleting line `l` of `n`.
fn count_after_delete_of(n: usize, l: usize) -> (r: Option<usize>)
    ensures
        match r {
            Some(m) => count_after_delete(n as nat, l) == Some(m as nat),
            None => count_after_delete(n as nat, l) is None,
        },
{
    if n == 0 || (n > 1 && l >= n) {
        None
    } else if n > 1 {
        Some(n - 1)
    } else {
        Some(1)
    }
}

/// Computes `undo_shape`.
fn undo_shape_of(n: usize, y: usize, action: &EditAction) -> (r: Option<(usize, usize)>)
    ensures
        match r {
            Some((n2, y2)) => undo_shape(n as nat, y, action@) == Some((n2 as nat, y2)),
            None => undo_shape(n as nat, y, action@) is None,
        },
    decreases action,
{
    proof {
        crate::history::lemma_edit_of_unfold(*action);
    }
    match action {
        EditAction::InsertChar { line, .. } => Some((n, *line)),
        EditAction::DeleteChar { line, col, .. } => if *col < usize::MAX {
            Some((n, *line))
        } else {
            None
        },
        EditAction::InsertNewline { line, .. } => match count_after_delete_of(n, *line) {
            Some(n2) => Some((n2, *line)),
            None => None,
        },
        EditAction::DeleteNewline { line, .. } => {
            if y < usize::MAX && *line < usize::MAX && (y >= n || n < usize::MAX) {
                Some((if y < n { n + 1 } else { n }, *line + 1))
            } else {
                None
            }
        },
        EditAction::InsertLine { line, .. } => match count_after_delete_of(n, *line) {
            Some(n2) => Some((n2, if *line < n2 - 1 { *line } else { n2 - 1 })),
            None => None,
        },
        EditAction::DeleteLine { line, .. } => if n < usize::MAX {
            Some((n + 1, *line))
        } else {
            None
        },
        EditAction::Group(actions) => group_undo_shape(n, y, actions),
    }
}

/// Computes `undo_shape_all` for the edits of `actions`.
fn group_undo_shape(n: usize, y: usize, actions: &Vec<EditAction>) -> (r: Option<(usize, usize)>)
    ensures
        match r {
            Some((n2, y2)) => undo_shape_all(n as nat, y, edits_of(actions@)) == Some((n2 as nat, y2)),
            None => undo_shape_all(n as nat, y, edits_of(actions@)) is None,
        },
    decreases actions@, 0nat,
{
    let ghost es = edits_of(actions@);
    let len = actions.len();
    proof {
        lemma_edits_of_len_index(actions@);
        assert(es.subrange(len as int, len as int) =~= Seq::<Edit>::empty());
    }
    let mut i: usize = len;
    let mut cur: Option<(usize, usize)> = Some((n, y));
    while i > 0
        invariant
            i <= len,
            len == actions@.len(),
            es == edits_of(actions@),
            es.len() == len,
            forall|k: int| 0 <= k < len ==> #[trigger] es[k] == edit_of(actions@[k]),
            match cur {
                Some((n2, y2)) => undo_shape_all(n as nat, y, es.subrange(i as int, len as int)) == Some(
                    (n2 as nat, y2),
                ),
                None => undo_shape_all(n as nat, y, es.subrange(i as int, len as int)) is None,
            },
        decreases i,
    {
        proof {
            assert(es.subrange(i - 1, len as int).drop_first() =~= es.subrange(i as int, len as int));
            assert(es.subrange(i - 1, len as int)[0] == edit_of(actions@[i - 1]));
        }
        cur = match cur {
            Some((n2, y2)) => {
                assert(decreases_to!(actions@ => actions@[i - 1]));
                undo_shape_of(n2, y2, &actions[i - 1])
            },
            None => None,
        };
        i = i - 1;
    }
    proof {
        assert(es.subrange(0, len as int) =~= es);
    }
    cur
}

/// Computes `redo_shape`.
fn redo_shape_of(n: usize, y: usize, action: &EditAction) -> (r: Option<(usize, usize)>)
    ensures
        match r {
            Some((n2, y2)) => redo_shape(n as nat, y, action@) == Some((n2 as nat, y2)),
            None => redo_shape(n as nat, y, action@) is None,
        },
    decreases action,
{
    proof {
        crate::history::lemma_edit_of_unfold(*action);
    }
    match action {
        EditAction::InsertChar { line, col, .. } => if *col < usize::MAX {
            Some((n, *line))
        } else {
            None
        },
        EditAction::DeleteChar { line, .. } => Some((n, *line)),
        EditAction::InsertNewline { line, .. } => {
            if y < usize::MAX && *line < usize::MAX && (y >= n || n < usize::MAX) {
                Some((if y < n { n + 1 } else { n }, *line + 1))
            } else {
                None
            }
        },
        EditAction::DeleteNewline { line, .. } => match count_after_delete_of(n, *line) {
            Some(n2) => Some((n2, *line)),
            None => None,
        },
        EditAction::InsertLine { line, .. } => if n < usize::MAX {
            Some((n + 1, *line))
        } else {
            None
        },
        EditAction::DeleteLine { line, .. } => match count_after_delete_of(n, *line) {
            Some(n2) => Some((n2, if *line < n2 - 1 { *line } else { n2 - 1 })),
            None => None,
        },
        EditAction::Group(actions) => group_redo_shape(n, y, actions),
    }
}

/// Computes `redo_shape_all` for the edits of `actions`.
fn group_redo_shape(n: usize, y: usize, actions: &Vec<EditAction>) -> (r: Option<(usize, usize)>)
    ensures
        match r {
            Some((n2, y2)) => redo_shape_all(n as nat, y, edits_of(actions@)) == Some((n2 as nat, y2)),
            None => redo_shape_all(n as nat, y, edits_of(actions@)) is None,
        },
    decreases actions@, 0nat,
{
    let ghost es = edits_of(actions@);
    let len = actions.len();
    proof {
        lemma_edits_of_len_index(actions@);
        assert(es.take(0) =~= Seq::<Edit>::empty());
    }
    let mut i: usize = 0;
    let mut cur: Option<(usize, usize)> = Some((n, y));
    while i < len
        invariant
            i <= len,
            len == actions@.len(),
            es == edits_of(actions@),
            es.len() == len,
            forall|k: int| 0 <= k < len ==> #[trigger] es[k] == edit_of(actions@[k]),
            match cur {
                Some((n2, y2)) => redo_shape_all(n as nat, y, es.take(i as int)) == Some((n2 as nat, y2)),
                None => redo_shape_all(n as nat, y, es.take(i as int)) is None,
            },
        decreases len - i,
    {
        proof {
            assert(es.take(i + 1).drop_last() =~= es.take(i as int));
            assert(es.take(i + 1).last() == edit_of(actions@[i as int]));
        }
        cur = match cur {
            Some((n2, y2)) => {
                assert(decreases_to!(actions@ => actions@[i as int]));
                redo_shape_of(n2, y2, &actions[i])
            },
            None => None,
        };
        i = i + 1;
    }
    proof {
        assert(es.take(len as int) =~= es);
    }
    cur
}

impl App {
    /// Whether `undo` can run now (`undo_ready`).
    pub fn undo_ready_now(&self) -> (r: bool)
        ensures
            r == undo_ready(*self),
    {
        let n = self.buffer.lines.len();
        let y = self.cursor_y;
        let grouped = match self.history.open_group() {
            Some(g) => {
                proof {
                    lemma_edits_of_len_index(g@);
                }
                if g.len() == 1 {
                    Some(undo_shape_of(n, y, &g[0]).is_some())
                } else if g.len() > 1 {
                    Some(group_undo_shape(n, y, g).is_some())
                } else {
                    None
                }
            },
            None => None,
        };
        match grouped {
            Some(ok) => ok,
            None => match self.history.last_undo() {
                Some(a) => undo_shape_of(n, y, a).is_some(),
                None => true,
            },
        }
    }

    /// Whether `redo` can run now (`redo_ready`).
    pub fn redo_ready_now(&self) -> (r: bool)
        ensures
            r == redo_ready(*self),
    {
        match self.history.last_redo() {
            Some(a) => redo_shape_of(self.buffer.lines.len(), self.cursor_y, a).is_some(),
            None => true,
        }
    }

    /// Whether `move_word_backward` can run now (`word_back_ready`).
    fn word_back_ready_now(&self) -> (r: bool)
        ensures
            r == word_back_ready(*self),
    {
        let lines = self.buffer.lines.len();
        if self.cursor_x == 0 {
            self.cursor_y == 0 || self.cursor_y - 1 < lines
        } else {
            match self.buffer.line_len(self.cursor_y) {
                Some(len) => self.cursor_x <= len,
                None => true,
            }
        }
    }

    /// Whether `change_to_end_of_line` can run now (`change_end_ready`).
    fn change_end_ready_now(&self) -> (r: bool)
        ensures
            r == change_end_ready(*self),
    {
        match self.buffer.line_len(self.cursor_y) {
            Some(len) => self.cursor_x <= usize::MAX - len,
            None => true,
        }
    }

    /// Whether `tab_size` spaces can be typed two columns apart without the
    /// column overflowing.
    fn tab_ready_now(&self) -> (r: bool)
        ensures
            r == (self.cursor_x + 2 * self.config.tab_size <= usize::MAX),
    {
        let room = usize::MAX - self.cursor_x;
        let t = self.config.tab_size;
        proof {
            assert(t <= room / 2 <==> 2 * t <= room) by (nonlinear_arith);
        }
        t <= room / 2
    }
}

/// Decides `vim_normal_ready`.
fn vim_normal_ready_now(app: &App, key: &KeyEvent) -> (r: bool)
    ensures
        r == vim_normal_ready(*app, *key),
{
    let lines = app.buffer.lines.len();
    match app.pending_cmd {
        Some(op) => {
            let is_char = match &key.code {
                KeyCode::Char(_) => true,
                _ => false,
            };
            !(op == 'r' && is_char) || (lines >= 1 && app.cursor_x < usize::MAX)
        },
        None => match &key.code {
            KeyCode::Char(c) => {
                let c = *c;
                if c == 'x' || c == 'j' || c == 'w' || c == 'D' {
                    lines >= 1
                } else if c == 'a' {
                    app.cursor_x < usize::MAX
                } else if c == 'l' || c == '$' {
                    app.cursor_y < lines
                } else if c == 'o' {
                    app.cursor_y < usize::MAX
                } else if c == 'b' {
                    app.word_back_ready_now()
                } else if c == 'C' {
                    app.change_end_ready_now()
                } else if c == 'p' {
                    app.yank_register.is_none() || app.cursor_y < usize::MAX
                } else if c == 'd' {
                    !key.control || lines >= 1
                } else if c == 'u' {
                    key.control || app.undo_ready_now()
                } else if c == 'r' {
                    !key.control || app.redo_ready_now()
                } else {
                    true
                }
            },
            KeyCode::Down => lines >= 1,
            KeyCode::Right => app.cursor_y < lines,
            _ => true,
        },
    }
}

/// Decides `vim_insert_ready`.
fn vim_insert_ready_now(app: &App, key: &KeyEvent) -> (r: bool)
    ensures
        r == vim_insert_ready(*app, *key),
{
    match &key.code {
        KeyCode::Enter => app.cursor_y < usize::MAX,
        KeyCode::Char(_) => app.cursor_x < usize::MAX,
        KeyCode::Tab => app.tab_ready_now(),
        KeyCode::Down => app.buffer.lines.len() >= 1,
        KeyCode::Right => app.cursor_y < app.buffer.lines.len(),
        _ => true,
    }
}

/// Decides `vim_ready`.
pub fn vim_ready_now(app: &App, key: &KeyEvent) -> (r: bool)
    ensures
        r == vim_ready(*app, *key),
{
    match app.mode {
        AppMode::Normal => vim_normal_ready_now(app, key),
        AppMode::Insert => app.is_readonly || vim_insert_ready_now(app, key),
        AppMode::Help => {
            let is_j = match &key.code {
                KeyCode::Char(c) => *c == 'j',
                _ => false,
            };
            !is_j || app.help_scroll_offset < usize::MAX
        },
        AppMode::Search => {
            let is_enter = match &key.code {
                KeyCode::Enter => true,
                _ => false,
            };
            !(is_enter && app.search.results.len() > 0) || app.search.current_match_idx < usize::MAX
        },
        _ => true,
    }
}

/// Decides `emacs_edit_ready`.
fn emacs_edit_ready_now(app: &App, key: &KeyEvent) -> (r: bool)
    ensures
        r == emacs_edit_ready(*app, *key),
{
    let lines = app.buffer.lines.len();
    match app.pending_cmd {
        Some(p) => {
            let is_u = match &key.code {
                KeyCode::Char(c) => *c == 'u',
                _ => false,
            };
            !(p == 'x' && is_u) || app.undo_ready_now()
        },
        None => {
            if key.control {
                match &key.code {
                    KeyCode::Char(c) => {
                        let c = *c;
                        if c == 'n' || c == 'd' || c == 'k' || c == 'v' {
                            lines >= 1
                        } else if c == 'f' || c == 'e' {
                            app.cursor_y < lines
                        } else if c == 'o' {
                            app.cursor_y < usize::MAX
                        } else if c == '/' {
                            app.undo_ready_now()
                        } else if c == '_' {
                            !key.shift || app.redo_ready_now()
                        } else {
                            true
                        }
                    },
                    _ => true,
                }
            } else if key.alt {
                match &key.code {
                    KeyCode::Char(c) => {
                        let c = *c;
                        if c == 'f' || c == '>' {
                            lines >= 1
                        } else if c == 'b' {
                            app.word_back_ready_now()
                        } else {
                            true
                        }
                    },
                    _ => true,
                }
            } else {
                match &key.code {
                    KeyCode::Enter => app.cursor_y < usize::MAX,
                    KeyCode::Char(_) => app.cursor_x < usize::MAX,
                    KeyCode::Tab => app.tab_ready_now(),
                    KeyCode::Down => lines >= 1,
                    KeyCode::Right => app.cursor_y < lines,
                    _ => true,
                }
            }
        },
    }
}

/// Decides `emacs_ready`.
pub fn emacs_ready_now(app: &App, key: &KeyEvent) -> (r: bool)
    ensures
        r == emacs_ready(*app, *key),
{
    match app.mode {
        AppMode::Help | AppMode::FileTree | AppMode::Command | AppMode::Confirm => true,
        AppMode::Search => {
            let is_s = match &key.code {
                KeyCode::Char(c) => *c == 's',
                _ => false,
            };
            !(key.control && is_s && app.search.results.len() > 0) || app.search.current_match_idx < usize::MAX
        },
        AppMode::Normal => app.is_readonly || emacs_edit_ready_now(app, key),
        _ => emacs_edit_ready_now(app, key),
    }
}

impl KeyHandler {
    /// Whether `key` can be handled now (`ready`): where this is false, the
    /// key would need a missing line, overflow a count, or undo or redo an
    /// edit that does not apply.
    pub fn can_handle(&self, app: &App, key: &KeyEvent) -> (r: bool)
        ensures
            r == self.ready(*app, *key),
    {
        match self {
            KeyHandler::Vim(_) => vim_ready_now(app, key),
            KeyHandler::Emacs(_) => emacs_ready_now(app, key),
        }
    }
}

} // verus!
