//! What key presses keep: the buffer never runs out of lines, and the Emacs
//! bindings never fall back into normal mode.
use vstd::prelude::*;
use crate::app::{App, AppMode, Effect};
use crate::emacs::emacs_step;
use crate::edit::{
    backspaced, changed_to_end, char_deleted, char_inserted, char_replaced, indented, line_changed, line_deleted,
    line_killed, newline_inserted, opened_above, opened_below, put_above, put_below, tab_inserted, tab_step,
    unindented,
};
use crate::files::{close_asked, confirmed};
use crate::handler::KeyHandler;
use crate::history::Edit;
use crate::keys::KeyEvent;
use crate::ready::{lemma_redo_ready, lemma_undo_ready, redo_ready, undo_ready};
use crate::undo::{
    apply_all, apply_all_reverse, apply_edit, apply_edit_reverse, can_redo, can_undo, redone, undone, EditState,
};

verus! {

/// The buffer of `a` has at least one line.
pub open spec fn has_a_line(a: App) -> bool {
    a.buffer.lines@.len() >= 1
}

proof fn lemma_undo_keeps(c: EditState, e: Edit)
    requires
        c.text.len() >= 1,
        apply_edit_reverse(c, e) is Some,
    ensures
        apply_edit_reverse(c, e)->0.text.len() >= 1,
    decreases e,
{
    if let Edit::Group(s) = e {
        lemma_undo_all_keeps(c, s);
    }
}

proof fn lemma_undo_all_keeps(c: EditState, s: Seq<Edit>)
    requires
        c.text.len() >= 1,
        apply_all_reverse(c, s) is Some,
    ensures
        apply_all_reverse(c, s)->0.text.len() >= 1,
    decreases s,
{
    if s.len() > 0 {
        lemma_undo_all_keeps(c, s.drop_first());
        lemma_undo_keeps(apply_all_reverse(c, s.drop_first())->0, s[0]);
    }
}

proof fn lemma_redo_keeps(c: EditState, e: Edit)
    requires
        c.text.len() >= 1,
        apply_edit(c, e) is Some,
    ensures
        apply_edit(c, e)->0.text.len() >= 1,
    decreases e,
{
    if let Edit::Group(s) = e {
        lemma_redo_all_keeps(c, s);
    }
}

proof fn lemma_redo_all_keeps(c: EditState, s: Seq<Edit>)
    requires
        c.text.len() >= 1,
        apply_all(c, s) is Some,
    ensures
        apply_all(c, s)->0.text.len() >= 1,
    decreases s,
{
    if s.len() > 0 {
        lemma_redo_all_keeps(c, s.drop_last());
        lemma_redo_keeps(apply_all(c, s.drop_last())->0, s.last());
    }
}

broadcast proof fn lemma_undone_keeps(a: App, b: App)
    ensures
        #[trigger] undone(a, b) ==> (has_a_line(a) && can_undo(a) ==> has_a_line(b)),
{
    if undone(a, b) && has_a_line(a) && can_undo(a) {
        assert(a.buffer.text().len() == a.buffer.lines@.len());
        assert(b.buffer.text().len() == b.buffer.lines@.len());
        let h = crate::history::after_finish_group(a.history@);
        if h.undo.len() > 0 {
            let popped = crate::history::History { undo: h.undo.drop_last(), redo: h.redo, group: None };
            lemma_undo_keeps(EditState { history: popped, ..a.edit_state() }, h.undo.last());
        }
    }
}

broadcast proof fn lemma_redone_keeps(a: App, b: App)
    ensures
        #[trigger] redone(a, b) ==> (has_a_line(a) && can_redo(a) ==> has_a_line(b)),
{
    if redone(a, b) && has_a_line(a) && can_redo(a) {
        assert(a.buffer.text().len() == a.buffer.lines@.len());
        assert(b.buffer.text().len() == b.buffer.lines@.len());
        let h = a.history@;
        if h.redo.len() > 0 {
            let popped = crate::history::History { undo: h.undo, redo: h.redo.drop_last(), group: h.group };
            lemma_redo_keeps(EditState { history: popped, ..a.edit_state() }, h.redo.last());
        }
    }
}

proof fn lemma_tab_steps_keep(states: Seq<App>, n: nat, k: nat)
    requires
        states.len() == n + 1,
        k <= n,
        forall|i: int| 0 <= i < n ==> #[trigger] tab_step(states[i], states[i + 1]),
    ensures
        states[k as int].buffer.lines@.len() == states[0].buffer.lines@.len(),
        states[k as int].mode == states[0].mode,
    decreases k,
{
    if k > 0 {
        lemma_tab_steps_keep(states, n, (k - 1) as nat);
        let i = k - 1;
        let s = states[i as int];
        let t = states[i + 1];
        assert(tab_step(s, t));
        assert(s.buffer.text().len() == s.buffer.lines@.len());
        assert(t.buffer.text().len() == t.buffer.lines@.len());
    }
}

broadcast proof fn lemma_tab_inserted_keeps(a: App, b: App)
    ensures
        #[trigger] tab_inserted(a, b) ==> (has_a_line(a) ==> has_a_line(b)) && b.mode == a.mode,
{
    if tab_inserted(a, b) {
        let states = choose|states: Seq<App>|
            {
                &&& states.len() == a.config.tab_size + 1
                &&& states[0] == a
                &&& states.last() == b
                &&& forall|i: int| 0 <= i < a.config.tab_size ==> #[trigger] tab_step(states[i], states[i + 1])
            };
        lemma_tab_steps_keep(states, a.config.tab_size as nat, a.config.tab_size as nat);
    }
}

broadcast proof fn lemma_edits_keep(a: App, b: App)
    ensures
        #![trigger backspaced(a, b)]
        #![trigger changed_to_end(a, b)]
        #![trigger char_deleted(a, b)]
        #![trigger indented(a, b)]
        #![trigger line_changed(a, b)]
        #![trigger line_deleted(a, b)]
        #![trigger line_killed(a, b)]
        #![trigger newline_inserted(a, b)]
        #![trigger opened_above(a, b)]
        #![trigger opened_below(a, b)]
        #![trigger put_above(a, b)]
        #![trigger put_below(a, b)]
        #![trigger unindented(a, b)]
        #![trigger close_asked(a, b)]
        has_a_line(a) ==> {
            &&& backspaced(a, b) ==> has_a_line(b)
            &&& changed_to_end(a, b) ==> has_a_line(b)
            &&& char_deleted(a, b) ==> has_a_line(b)
            &&& indented(a, b) ==> has_a_line(b)
            &&& line_changed(a, b) ==> has_a_line(b)
            &&& line_deleted(a, b) ==> has_a_line(b)
            &&& line_killed(a, b) ==> has_a_line(b)
            &&& newline_inserted(a, b) ==> has_a_line(b)
            &&& opened_above(a, b) ==> has_a_line(b)
            &&& opened_below(a, b) ==> has_a_line(b)
            &&& put_above(a, b) ==> has_a_line(b)
            &&& put_below(a, b) ==> has_a_line(b)
            &&& unindented(a, b) ==> has_a_line(b)
            &&& close_asked(a, b) ==> has_a_line(b)
        },
{
    assert(a.buffer.text().len() == a.buffer.lines@.len());
    assert(b.buffer.text().len() == b.buffer.lines@.len());
}

broadcast proof fn lemma_char_edits_keep(a: App, b: App, c: char)
    ensures
        #![trigger char_inserted(a, b, c)]
        #![trigger char_replaced(a, b, c)]
        has_a_line(a) ==> {
            &&& char_inserted(a, b, c) ==> has_a_line(b)
            &&& char_replaced(a, b, c) ==> has_a_line(b)
        },
{
    assert(a.buffer.text().len() == a.buffer.lines@.len());
    assert(b.buffer.text().len() == b.buffer.lines@.len());
    if has_a_line(a) && char_replaced(a, b, c) {
        let mid = choose|mid: App| char_deleted(a, mid) && char_inserted(mid, b, c);
        assert(mid.buffer.text().len() == mid.buffer.lines@.len());
    }
}

broadcast proof fn lemma_confirmed_keeps(a: App, b: App, e: Effect)
    ensures
        #[trigger] confirmed(a, b, e) ==> (has_a_line(a) ==> has_a_line(b)),
{
    assert(b.buffer.text().len() == b.buffer.lines@.len());
}

proof fn lemma_vim_insert_keeps(a: App, key: KeyEvent, b: App)
    requires
        has_a_line(a),
        crate::vim::vim_insert_step(a, key, b),
    ensures
        has_a_line(b),
{
    broadcast use lemma_tab_inserted_keeps, lemma_edits_keep, lemma_char_edits_keep;

}

proof fn lemma_vim_pending_keeps(a: App, op: char, key: KeyEvent, b: App)
    requires
        has_a_line(a),
        crate::vim::vim_pending_step(a, op, key, b),
    ensures
        has_a_line(b),
{
    broadcast use lemma_edits_keep, lemma_char_edits_keep;

}

proof fn lemma_vim_char_keeps(a: App, c: char, control: bool, b: App)
    requires
        has_a_line(a),
        c == 'u' && !control ==> can_undo(a),
        c == 'r' && control ==> can_redo(a),
        crate::vim::vim_normal_char(a, c, control, b),
    ensures
        has_a_line(b),
{
    broadcast use lemma_undone_keeps, lemma_redone_keeps, lemma_edits_keep, lemma_char_edits_keep;

    crate::motion::lemma_half_pages_keep_text(a);
}

proof fn lemma_vim_keeps(a: App, key: KeyEvent, b: App, e: Effect)
    requires
        has_a_line(a),
        crate::vim::vim_ready(a, key),
        crate::vim::vim_step(a, key, b, e),
    ensures
        has_a_line(b),
{
    broadcast use lemma_confirmed_keeps, lemma_edits_keep;

    if undo_ready(a) {
        lemma_undo_ready(a);
    }
    if redo_ready(a) {
        lemma_redo_ready(a);
    }
    match a.mode {
        crate::app::AppMode::Normal => {
            match a.pending_cmd {
                Some(op) => lemma_vim_pending_keeps(a, op, key, App { pending_cmd: a.pending_cmd, ..b }),
                None => match key.code {
                    crate::keys::KeyCode::Char(c) => lemma_vim_char_keeps(a, c, key.control, b),
                    _ => {},
                },
            }
        },
        crate::app::AppMode::Insert => {
            if !a.is_readonly {
                lemma_vim_insert_keeps(a, key, b);
            }
        },
        _ => {},
    }
}

proof fn lemma_emacs_edit_keeps(a: App, key: KeyEvent, b: App, e: Effect)
    requires
        has_a_line(a),
        crate::emacs::emacs_edit_ready(a, key),
        crate::emacs::emacs_edit_step(a, key, b, e),
    ensures
        has_a_line(b),
{
    broadcast use
        lemma_undone_keeps,
        lemma_redone_keeps,
        lemma_tab_inserted_keeps,
        lemma_edits_keep,
        lemma_char_edits_keep;

    crate::motion::lemma_half_pages_keep_text(a);
    let cleared = App { pending_cmd: None, ..a };
    if undo_ready(cleared) {
        lemma_undo_ready(cleared);
    }
    if undo_ready(a) {
        lemma_undo_ready(a);
    }
    if redo_ready(a) {
        lemma_redo_ready(a);
    }
}

proof fn lemma_emacs_command_keeps(a: App, key: KeyEvent, b: App, e: Effect)
    requires
        has_a_line(a),
        crate::emacs::emacs_command_step(a, key, b, e),
    ensures
        has_a_line(b),
{
    broadcast use lemma_edits_keep;

}

proof fn lemma_emacs_keeps(a: App, key: KeyEvent, b: App, e: Effect)
    requires
        has_a_line(a),
        crate::emacs::emacs_ready(a, key),
        crate::emacs::emacs_step(a, key, b, e),
    ensures
        has_a_line(b),
{
    broadcast use lemma_confirmed_keeps;

    match a.mode {
        crate::app::AppMode::Command => lemma_emacs_command_keeps(a, key, b, e),
        crate::app::AppMode::Normal => {
            if !a.is_readonly {
                lemma_emacs_edit_keeps(App { mode: crate::app::AppMode::Insert, ..a }, key, b, e);
            }
        },
        crate::app::AppMode::Insert | crate::app::AppMode::Quit => lemma_emacs_edit_keeps(a, key, b, e),
        _ => {},
    }
}

/// Whatever key is pressed, in whatever mode and under either set of
/// bindings, a buffer with at least one line keeps at least one line.
pub proof fn law_keys_keep_a_line(h: KeyHandler, a: App, key: KeyEvent, b: App, e: Effect)
    requires
        has_a_line(a),
        h.ready(a, key),
        h.step(a, key, b, e),
    ensures
        has_a_line(b),
{
    match h {
        KeyHandler::Vim(_) => lemma_vim_keeps(a, key, b, e),
        KeyHandler::Emacs(_) => lemma_emacs_keeps(a, key, b, e),
    }
}

/// Under the Emacs bindings the editor is modeless: a key pressed while
/// inserting, or in normal mode on a file that is not read-only, never
/// leaves it in normal mode.
pub proof fn law_emacs_never_returns_to_normal_mode(a: App, key: KeyEvent, b: App, e: Effect)
    requires
        a.mode == AppMode::Insert || (a.mode == AppMode::Normal && !a.is_readonly),
        emacs_step(a, key, b, e),
    ensures
        b.mode != AppMode::Normal,
{
    if a.mode == AppMode::Normal {
        lemma_emacs_edit_not_normal(App { mode: AppMode::Insert, ..a }, key, b, e);
    } else {
        lemma_emacs_edit_not_normal(a, key, b, e);
    }
}

proof fn lemma_emacs_edit_not_normal(a: App, key: KeyEvent, b: App, e: Effect)
    requires
        a.mode == AppMode::Insert,
        crate::emacs::emacs_edit_step(a, key, b, e),
    ensures
        b.mode != AppMode::Normal,
{
    broadcast use lemma_tab_inserted_keeps;

    crate::motion::lemma_half_pages_keep_text(a);
}

} // verus!
