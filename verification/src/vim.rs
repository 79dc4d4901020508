//! Vim key bindings: modal editing with normal, insert and command modes.
use vstd::prelude::*;
use crate::app::{App, AppMode, Effect};
use crate::config::{Config, KeyBindMode};
use crate::files::{
    canceled, close_asked, confirmed, help_shown, quit_asked, says, searched, tree_parent_effect,
    tree_select_effect,
};
use crate::search::SearchState;
use crate::edit::{
    after_start_group, backspaced, changed_to_end, char_deleted, char_inserted, char_replaced, indented,
    line_changed, line_deleted, line_killed, line_yanked, newline_inserted, opened_above, opened_below, put_above,
    put_below, tab_inserted, unindented,
};
use crate::history::after_finish_group;
use crate::keys::{KeyCode, KeyEvent};
use crate::text::{
    char_count, concatenated, decimal, decimal_text, empty_string, pop_last, split_words, str_eq,
    string_push, words,
};
use crate::ready::{lemma_redo_ready, lemma_undo_ready, redo_ready, undo_ready};
use crate::undo::{redone, undone};

verus! {

/// The handler of the Vim key bindings.
pub struct VimHandler;

/// The history opened for a group, everything else as in `a`.
pub open spec fn group_started(a: App, b: App) -> bool {
    &&& b.history@ == after_start_group(a.history@)
    &&& b == App { history: b.history, ..a }
}

/// `move_word_backward` can run at the cursor of `a`: the line it reads
/// exists and the cursor is not past its end.
pub open spec fn word_back_ready(a: App) -> bool {
    &&& (a.cursor_x == 0 && a.cursor_y > 0 ==> a.cursor_y - 1 < a.buffer.lines@.len())
    &&& (a.cursor_x > 0 && a.cursor_y < a.buffer.lines@.len() ==> a.cursor_x <= a.buffer.text()[a.cursor_y as int].len())
}

/// `change_to_end_of_line` can run at the cursor of `a` without the column
/// count overflowing.
pub open spec fn change_end_ready(a: App) -> bool {
    a.cursor_y < a.buffer.lines@.len() ==> a.cursor_x + a.buffer.text()[a.cursor_y as int].len() <= usize::MAX
}

/// A key in normal mode does not run into a missing line, an overflow or an
/// edit that cannot be undone or redone.
pub open spec fn vim_normal_ready(a: App, key: KeyEvent) -> bool {
    let lines = a.buffer.lines@.len();
    match a.pending_cmd {
        Some(op) => (op == 'r' && key.code is Char) ==> lines >= 1 && a.cursor_x < usize::MAX,
        None => match key.code {
            KeyCode::Char(c) => if c == 'x' || c == 'j' || c == 'w' || c == 'D' {
                lines >= 1
            } else if c == 'a' {
                a.cursor_x < usize::MAX
            } else if c == 'l' || c == '$' {
                a.cursor_y < lines
            } else if c == 'o' {
                a.cursor_y < usize::MAX
            } else if c == 'b' {
                word_back_ready(a)
            } else if c == 'C' {
                change_end_ready(a)
            } else if c == 'p' {
                a.yank_register is Some ==> a.cursor_y < usize::MAX
            } else if c == 'd' {
                key.control ==> lines >= 1
            } else if c == 'u' {
                !key.control ==> undo_ready(a)
            } else if c == 'r' {
                key.control ==> redo_ready(a)
            } else {
                true
            },
            KeyCode::Down => lines >= 1,
            KeyCode::Right => a.cursor_y < lines,
            _ => true,
        },
    }
}

/// The second key of a two-key command `op`: `dd` deletes the line, `gg`
/// goes to the top, `yy` yanks the line, `>>` and `<<` indent and unindent,
/// `cc` changes the line, `r` and a character replaces the character under
/// the cursor, `zz` centers the cursor line; anything else does nothing.
pub open spec fn vim_pending_step(a: App, op: char, key: KeyEvent, b: App) -> bool {
    match key.code {
        KeyCode::Char(c) => if op == 'd' && c == 'd' {
            line_deleted(a, b)
        } else if op == 'g' && c == 'g' {
            b == a.with_cursor(0, 0)
        } else if op == 'y' && c == 'y' {
            line_yanked(a, b)
        } else if op == '>' && c == '>' {
            indented(a, b)
        } else if op == '<' && c == '<' {
            unindented(a, b)
        } else if op == 'c' && c == 'c' {
            line_changed(a, b)
        } else if op == 'r' {
            char_replaced(a, b, c)
        } else if op == 'z' && c == 'z' {
            b == a.centered()
        } else {
            b == a
        },
        _ => b == a,
    }
}

/// What a character key does in normal mode with no command pending.
pub open spec fn vim_normal_char(a: App, c: char, control: bool, b: App) -> bool {
    if c == 'i' {
        group_started(a, App { mode: a.mode, ..b }) && b.mode == AppMode::Insert
    } else if c == 'x' {
        char_deleted(a, b)
    } else if c == 'a' {
        &&& group_started(a, App { mode: a.mode, cursor_x: a.cursor_x, ..b })
        &&& b.mode == AppMode::Insert
        &&& b.cursor_x == a.cursor_x + 1
    } else if c == 'h' {
        b == a.step_left()
    } else if c == 'j' {
        b == a.step_down()
    } else if c == 'k' {
        b == a.step_up()
    } else if c == 'l' {
        b == a.step_right()
    } else if c == 'o' {
        b.history@ == after_start_group(a.history@) && opened_below(App { history: b.history, ..a }, b)
    } else if c == 'O' {
        b.history@ == after_start_group(a.history@) && opened_above(App { history: b.history, ..a }, b)
    } else if c == 'w' {
        b == a.word_forward()
    } else if c == 'b' {
        b == a.word_backward()
    } else if c == '0' {
        b == App { cursor_x: 0, ..a }
    } else if c == '$' {
        let n = a.buffer.text()[a.cursor_y as int].len();
        b == App { cursor_x: if n > 0 { (n - 1) as usize } else { 0 }, ..a }
    } else if c == ':' {
        b.command_input@ == Seq::<char>::empty() && b == App {
            mode: AppMode::Command,
            command_input: b.command_input,
            ..a
        }
    } else if c == '/' {
        &&& b.search.results@.len() == 0
        &&& b.search.query == a.search.query
        &&& b.search.current_match_idx == a.search.current_match_idx
        &&& b == App { mode: AppMode::Search, search: b.search, ..a }
    } else if c == 't' {
        b == if control { App { mode: AppMode::FileTree, ..a } } else { a }
    } else if c == 'D' {
        line_killed(a, b)
    } else if c == 'C' {
        changed_to_end(a, b)
    } else if c == 'p' {
        put_below(a, b)
    } else if c == 'P' {
        put_above(a, b)
    } else if c == 'd' {
        if control { b == a.half_page_down() } else { b == App { pending_cmd: Some('d'), ..a } }
    } else if c == 'u' {
        if control { b == a.half_page_up() } else { undone(a, b) }
    } else if c == 'r' {
        if control { redone(a, b) } else { b == App { pending_cmd: Some('r'), ..a } }
    } else if c == 'g' || c == 'y' || c == 'c' || c == '>' || c == '<' || c == 'z' {
        b == App { pending_cmd: Some(c), ..a }
    } else {
        b == a
    }
}

/// `b` is `a` after `key` in normal mode: with a command pending, its second
/// key (and the command is no longer pending); else the key's own action.
pub open spec fn vim_normal_step(a: App, key: KeyEvent, b: App) -> bool {
    match a.pending_cmd {
        Some(op) => b.pending_cmd is None && vim_pending_step(a, op, key, App { pending_cmd: a.pending_cmd, ..b }),
        None => match key.code {
            KeyCode::Char(c) => vim_normal_char(a, c, key.control, b),
            KeyCode::Left => b == a.step_left(),
            KeyCode::Down => b == a.step_down(),
            KeyCode::Up => b == a.step_up(),
            KeyCode::Right => b == a.step_right(),
            _ => b == a,
        },
    }
}

/// A key in insert mode does not overflow the cursor or run into a missing
/// line.
pub open spec fn vim_insert_ready(a: App, key: KeyEvent) -> bool {
    match key.code {
        KeyCode::Enter => a.cursor_y < usize::MAX,
        KeyCode::Char(_) => a.cursor_x < usize::MAX,
        KeyCode::Tab => a.cursor_x + 2 * a.config.tab_size <= usize::MAX,
        KeyCode::Down => a.buffer.lines@.len() >= 1,
        KeyCode::Right => a.cursor_y < a.buffer.lines@.len(),
        _ => true,
    }
}

/// `b` is `a` after `key` in insert mode: Esc goes back to normal mode one
/// column left and closes the edit group; Enter, Backspace, Tab and
/// characters edit; the arrows move.
pub open spec fn vim_insert_step(a: App, key: KeyEvent, b: App) -> bool {
    match key.code {
        KeyCode::Esc => {
            &&& b.history@ == after_finish_group(a.history@)
            &&& b == App { mode: AppMode::Normal, history: b.history, ..a.step_left() }
        },
        KeyCode::Enter => newline_inserted(a, b),
        KeyCode::Backspace => backspaced(a, b),
        KeyCode::Char(c) => char_inserted(a, b, c),
        KeyCode::Tab => tab_inserted(a, b),
        KeyCode::Left => b == a.step_left(),
        KeyCode::Down => b == a.step_down(),
        KeyCode::Up => b == a.step_up(),
        KeyCode::Right => b == a.step_right(),
        _ => b == a,
    }
}

/// `b` is `a` after running the typed command line, which asked for `e`:
/// `w`/`write [path]` saves, `q`/`quit` quits (asking first about unsaved
/// changes), `q!` quits, `wq` saves and quits, `e`/`edit path` opens a file,
/// `close` closes it, `t`/`tree` toggles the file tree, `config` opens the
/// settings, `help` shows the help, `chkey` switches to the Emacs bindings;
/// the command line is then emptied. An empty line only leaves command mode.
pub open spec fn vim_command_enter(a: App, b: App, e: Effect) -> bool {
    let w = words(a.command_input@);
    if w.len() == 0 {
        b == App { mode: AppMode::Normal, ..a } && e is Done
    } else {
        let cmd = w[0];
        let m = App { command_input: a.command_input, ..b };
        &&& b.command_input@ == Seq::<char>::empty()
        &&& if cmd == "w"@ || cmd == "write"@ {
            &&& e is SaveAndReload
            &&& if w.len() > 1 {
                m.file_path matches Some(p) && p@ == w[1]
            } else {
                m.file_path == a.file_path
            }
            &&& m == App { file_path: m.file_path, mode: AppMode::Normal, ..a }
        } else if cmd == "q"@ || cmd == "quit"@ {
            quit_asked(a, m) && e is Done
        } else if cmd == "q!"@ {
            m == App { mode: AppMode::Quit, ..a } && e is Done
        } else if cmd == "wq"@ {
            m == App { mode: AppMode::Quit, ..a } && e is SaveAndReload
        } else if cmd == "e"@ || cmd == "edit"@ {
            if w.len() > 1 {
                (e matches Effect::Open(p) && p@ == w[1]) && m == App { mode: AppMode::Normal, ..a }
            } else {
                m == a && e is Done
            }
        } else if cmd == "close"@ {
            close_asked(a, m) && e is Done
        } else if cmd == "t"@ || cmd == "tree"@ {
            &&& e is Done
            &&& m == App {
                show_file_tree: !a.show_file_tree,
                mode: if !a.show_file_tree { AppMode::FileTree } else { AppMode::Normal },
                ..a
            }
        } else if cmd == "config"@ {
            m == a && e is OpenConfig
        } else if cmd == "help"@ {
            help_shown(a, m) && e is Done
        } else if cmd == "chkey"@ {
            &&& e is Done
            &&& m == App { config: Config { key_bind_mode: KeyBindMode::Emacs, ..a.config }, mode: AppMode::Insert, ..a }
        } else {
            m == App { mode: AppMode::Normal, ..a } && e is Done
        }
    }
}

/// `b` is `a` after `key` in command mode, which asked for `e`: Esc leaves
/// it, Enter runs the command, Backspace deletes the last character (or
/// leaves on an empty line), characters are typed.
pub open spec fn vim_command_step(a: App, key: KeyEvent, b: App, e: Effect) -> bool {
    match key.code {
        KeyCode::Esc => {
            &&& e is Done
            &&& b.command_input@ == Seq::<char>::empty()
            &&& b == App { mode: AppMode::Normal, command_input: b.command_input, ..a }
        },
        KeyCode::Enter => vim_command_enter(a, b, e),
        KeyCode::Backspace => e is Done && if a.command_input@.len() == 0 {
            b == App { mode: AppMode::Normal, ..a }
        } else {
            b.command_input@ == a.command_input@.drop_last() && b == App { command_input: b.command_input, ..a }
        },
        KeyCode::Char(c) => {
            &&& e is Done
            &&& b.command_input@ == a.command_input@.push(c)
            &&& b == App { command_input: b.command_input, ..a }
        },
        _ => b == a && e is Done,
    }
}

/// `b` is `a` after `key` in the file tree, which asked for `e`: `q` or Esc
/// leave it, `j` and `k` move, Enter selects, Backspace or `h` go up.
pub open spec fn vim_tree_step(a: App, key: KeyEvent, b: App, e: Effect) -> bool {
    match key.code {
        KeyCode::Char(c) => if c == 'q' {
            b == App { mode: AppMode::Normal, ..a } && e is Done
        } else if c == 'j' {
            b == a.tree_next() && e is Done
        } else if c == 'k' {
            b == a.tree_prev() && e is Done
        } else if c == 'h' {
            b == a && tree_parent_effect(a, e)
        } else {
            b == a && e is Done
        },
        KeyCode::Esc => b == App { mode: AppMode::Normal, ..a } && e is Done,
        KeyCode::Enter => b == a && tree_select_effect(a, e),
        KeyCode::Backspace => b == a && tree_parent_effect(a, e),
        _ => b == a && e is Done,
    }
}

/// `b` is `a` after `key` while a yes/no question is asked, which asked for
/// `e`: `y` confirms, `n` or Esc cancel.
pub open spec fn vim_confirm_step(a: App, key: KeyEvent, b: App, e: Effect) -> bool {
    match key.code {
        KeyCode::Char(c) => if c == 'y' || c == 'Y' {
            confirmed(a, b, e)
        } else if c == 'n' || c == 'N' {
            canceled(a, b) && e is Done
        } else {
            b == a && e is Done
        },
        KeyCode::Esc => canceled(a, b) && e is Done,
        _ => b == a && e is Done,
    }
}

/// `b` is `a` after `key` in the help: `q` or Esc close it, `j` and `k`
/// scroll.
pub open spec fn vim_help_step(a: App, key: KeyEvent, b: App) -> bool {
    match key.code {
        KeyCode::Char(c) => if c == 'q' {
            b == App { mode: AppMode::Insert, ..a }
        } else if c == 'j' {
            b == App { help_scroll_offset: (a.help_scroll_offset + 1) as usize, ..a }
        } else if c == 'k' {
            b == App {
                help_scroll_offset: if a.help_scroll_offset > 0 { (a.help_scroll_offset - 1) as usize } else { 0 },
                ..a
            }
        } else {
            b == a
        },
        KeyCode::Esc => b == App { mode: AppMode::Insert, ..a },
        _ => b == a,
    }
}

/// The search moved on to its next result, cyclically, with the cursor on
/// it.
pub open spec fn next_match(a: App) -> App {
    let n = a.search.results@.len() as int;
    App {
        search: SearchState { current_match_idx: ((a.search.current_match_idx + 1) % n) as usize, ..a.search },
        ..a
    }.at_search_result()
}

/// Moving to the next of `n > 0` search results: from result `i` with
/// `i + 1 < n` to result `i + 1`, and from the last result back to the first;
/// the cursor goes onto that result, the results stay, and the index stays
/// below `n`.
pub proof fn law_next_match_cycles(a: App)
    requires
        a.search.results@.len() > 0,
    ensures
        ({
            let b = next_match(a);
            let n = a.search.results@.len();
            let i = a.search.current_match_idx;
            &&& i + 1 < n ==> b.search.current_match_idx == i + 1
            &&& i + 1 == n ==> b.search.current_match_idx == 0
            &&& b.search.current_match_idx < n
            &&& b.search.results == a.search.results
            &&& b.cursor_y == a.search.results@[b.search.current_match_idx as int].line_idx
            &&& b.cursor_x == a.search.results@[b.search.current_match_idx as int].char_idx
        }),
{
    assert(a.search.results.len() == a.search.results@.len());
    let n = a.search.results@.len() as int;
    let i = a.search.current_match_idx as int;
    assert(0 <= (i + 1) % n < n) by (nonlinear_arith)
        requires
            n > 0,
            i >= 0,
    ;
    if i + 1 < n {
        assert((i + 1) % n == i + 1) by (nonlinear_arith)
            requires
                0 <= i + 1 < n,
        ;
    }
    if i + 1 == n {
        assert((i + 1) % n == 0) by (nonlinear_arith)
            requires
                i + 1 == n,
                n > 0,
        ;
    }
}

/// The message that reports how many matches the search found.
pub open spec fn found_message(n: nat) -> Seq<char> {
    "Found "@ + decimal_text(n) + " matches"@
}

/// `b` is `a` with the search query changed to `b`'s and searched again.
pub open spec fn requeried(a: App, b: App) -> bool {
    searched(App { search: SearchState { query: b.search.query, ..a.search }, ..a }, b)
}

/// `b` is `a` after `key` in search mode: Enter jumps to the next result and
/// reports the number of matches, `q` or Esc leave the search, characters
/// and Backspace edit the query and search again.
pub open spec fn vim_search_step(a: App, key: KeyEvent, b: App) -> bool {
    let n = a.search.results@.len();
    match key.code {
        KeyCode::Enter => if n > 0 {
            says(b, found_message(n)) && b == App {
                mode: AppMode::Normal,
                status_message: b.status_message,
                ..next_match(a)
            }
        } else {
            b == a
        },
        KeyCode::Esc => search_left(a, b, AppMode::Normal),
        KeyCode::Char(c) => if c == 'q' {
            search_left(a, b, AppMode::Normal)
        } else {
            b.search.query@ == a.search.query@.push(c) && requeried(a, b)
        },
        KeyCode::Backspace => {
            &&& b.search.query@ == (if a.search.query@.len() > 0 {
                a.search.query@.drop_last()
            } else {
                a.search.query@
            })
            &&& requeried(a, b)
        },
        _ => b == a,
    }
}

/// `b` is `a` after leaving the search for `mode`: results dropped, status
/// line cleared.
pub open spec fn search_left(a: App, b: App, mode: AppMode) -> bool {
    &&& b.search.results@.len() == 0
    &&& b.search.query == a.search.query
    &&& b.search.current_match_idx == a.search.current_match_idx
    &&& b == App { mode, search: b.search, status_message: None, ..a }
}

/// A key does not run into a missing line, an overflow or an edit that
/// cannot be undone or redone, in whatever mode the editor is.
pub open spec fn vim_ready(a: App, key: KeyEvent) -> bool {
    match a.mode {
        AppMode::Normal => vim_normal_ready(a, key),
        AppMode::Insert => !a.is_readonly ==> vim_insert_ready(a, key),
        AppMode::Help => key.code == KeyCode::Char('j') ==> a.help_scroll_offset < usize::MAX,
        AppMode::Search => (key.code is Enter && a.search.results@.len() > 0) ==> a.search.current_match_idx
            < usize::MAX,
        _ => true,
    }
}

/// `b` is `a` after `key` under the Vim bindings, which asked for `e`. In a
/// read-only file, insert mode falls back to normal mode with an error.
pub open spec fn vim_step(a: App, key: KeyEvent, b: App, e: Effect) -> bool {
    match a.mode {
        AppMode::Normal => vim_normal_step(a, key, b) && e is Done,
        AppMode::Insert => e is Done && if a.is_readonly {
            says(b, "Error: File is Read-Only"@) && b == App {
                mode: AppMode::Normal,
                status_message: b.status_message,
                ..a
            }
        } else {
            vim_insert_step(a, key, b)
        },
        AppMode::Command => vim_command_step(a, key, b, e),
        AppMode::FileTree => vim_tree_step(a, key, b, e),
        AppMode::Confirm => vim_confirm_step(a, key, b, e),
        AppMode::Help => vim_help_step(a, key, b) && e is Done,
        AppMode::Search => vim_search_step(a, key, b) && e is Done,
        AppMode::Quit => b == a && e is Done,
    }
}

impl VimHandler {
    fn handle_pending(&self, op: char, key: &KeyEvent, app: &mut App)
        requires
            (op == 'r' && key.code is Char) ==> old(app).buffer.lines@.len() >= 1 && old(app).cursor_x < usize::MAX,
        ensures
            vim_pending_step(*old(app), op, *key, *final(app)),
    {
        match &key.code {
            KeyCode::Char(c) => {
                let c = *c;
                if op == 'd' && c == 'd' {
                    app.delete_current_line();
                } else if op == 'g' && c == 'g' {
                    app.cursor_y = 0;
                    app.cursor_x = 0;
                } else if op == 'y' && c == 'y' {
                    app.yank_current_line();
                } else if op == '>' && c == '>' {
                    app.indent_current_line();
                } else if op == '<' && c == '<' {
                    app.unindent_current_line();
                } else if op == 'c' && c == 'c' {
                    app.change_current_line();
                } else if op == 'r' {
                    app.replace_char(c);
                } else if op == 'z' && c == 'z' {
                    app.center_cursor();
                }
            },
            _ => {},
        }
    }

    fn handle_normal_char(&self, c: char, control: bool, app: &mut App)
        requires
            old(app).pending_cmd is None,
            vim_normal_ready(*old(app), KeyEvent { code: KeyCode::Char(c), control, alt: false, shift: false }),
        ensures
            vim_normal_char(*old(app), c, control, *final(app)),
    {
        if c == 'i' {
            app.history.start_group();
            app.mode = AppMode::Insert;
        } else if c == 'x' {
            app.delete_char();
        } else if c == 'a' {
            app.cursor_x = app.cursor_x + 1;
            app.history.start_group();
            app.mode = AppMode::Insert;
        } else if c == 'h' {
            app.move_cursor_left();
        } else if c == 'j' {
            app.move_cursor_down();
        } else if c == 'k' {
            app.move_cursor_up();
        } else if c == 'l' {
            app.move_cursor_right();
        } else if c == 'o' {
            app.history.start_group();
            app.open_new_line_below();
        } else if c == 'O' {
            app.history.start_group();
            app.open_new_line_above();
        } else if c == 'w' {
            app.move_word_forward();
        } else if c == 'b' {
            app.move_word_backward();
        } else if c == '0' {
            app.cursor_x = 0;
        } else if c == '$' {
            let n = char_count(&app.buffer.lines[app.cursor_y]);
            app.cursor_x = if n > 0 { n - 1 } else { 0 };
        } else if c == ':' {
            app.mode = AppMode::Command;
            app.command_input = String::new();
        } else if c == '/' {
            app.mode = AppMode::Search;
            app.search.results.clear();
        } else if c == 't' {
            if control {
                app.mode = AppMode::FileTree;
            }
        } else if c == 'D' {
            app.kill_line();
        } else if c == 'C' {
            app.change_to_end_of_line();
        } else if c == 'p' {
            app.put_after();
            app.clear_pending();
        } else if c == 'P' {
            app.put_before();
            app.clear_pending();
        } else if c == 'd' {
            if control {
                app.scroll_half_page_down();
            } else {
                app.pending_cmd = Some('d');
            }
        } else if c == 'u' {
            if control {
                app.scroll_half_page_up();
            } else {
                proof {
                    lemma_undo_ready(*app);
                }
                app.undo();
            }
        } else if c == 'r' {
            if control {
                proof {
                    lemma_redo_ready(*app);
                }
                app.redo();
            } else {
                app.pending_cmd = Some('r');
            }
        } else if c == 'g' || c == 'y' || c == 'c' || c == '>' || c == '<' || c == 'z' {
            app.pending_cmd = Some(c);
        }
    }

    /// A key in normal mode: motions, edits, and the first keys of two-key
    /// commands.
    pub fn handle_normal(&self, key: &KeyEvent, app: &mut App)
        requires
            vim_normal_ready(*old(app), *key),
        ensures
            vim_normal_step(*old(app), *key, *final(app)),
    {
        match app.pending_cmd {
            Some(op) => {
                self.handle_pending(op, key, app);
                app.clear_pending();
            },
            None => {
                match &key.code {
                    KeyCode::Char(c) => self.handle_normal_char(*c, key.control, app),
                    KeyCode::Left => app.move_cursor_left(),
                    KeyCode::Down => app.move_cursor_down(),
                    KeyCode::Up => app.move_cursor_up(),
                    KeyCode::Right => app.move_cursor_right(),
                    _ => {},
                }
            },
        }
    }

    fn handle_insert(&self, key: &KeyEvent, app: &mut App)
        requires
            vim_insert_ready(*old(app), *key),
        ensures
            vim_insert_step(*old(app), *key, *final(app)),
    {
        match &key.code {
            KeyCode::Esc => {
                app.move_cursor_left();
                app.mode = AppMode::Normal;
                app.history.finish_group();
            },
            KeyCode::Enter => app.insert_newline(),
            KeyCode::Backspace => app.handle_backspace(),
            KeyCode::Char(c) => app.insert_char(*c),
            KeyCode::Tab => app.insert_tab(),
            KeyCode::Left => app.move_cursor_left(),
            KeyCode::Down => app.move_cursor_down(),
            KeyCode::Up => app.move_cursor_up(),
            KeyCode::Right => app.move_cursor_right(),
            _ => {},
        }
    }

    fn run_command(&self, app: &mut App) -> (e: Effect)
        ensures
            vim_command_enter(*old(app), *final(app), e),
    {
        let parts = split_words(app.command_input.as_str());
        if parts.len() == 0 {
            app.mode = AppMode::Normal;
            return Effect::Done;
        }
        let cmd = parts[0].as_str();
        let e = if str_eq(cmd, "w") || str_eq(cmd, "write") {
            if parts.len() > 1 {
                app.file_path = Some(parts[1].clone());
            }
            app.mode = AppMode::Normal;
            Effect::SaveAndReload
        } else if str_eq(cmd, "q") || str_eq(cmd, "quit") {
            if app.is_buffer_modified() {
                app.request_confirm("Discord unsaved changes?", crate::app::ConfirmAction::Quit);
            } else {
                app.mode = AppMode::Quit;
            }
            Effect::Done
        } else if str_eq(cmd, "q!") {
            app.mode = AppMode::Quit;
            Effect::Done
        } else if str_eq(cmd, "wq") {
            app.mode = AppMode::Quit;
            Effect::SaveAndReload
        } else if str_eq(cmd, "e") || str_eq(cmd, "edit") {
            if parts.len() > 1 {
                app.mode = AppMode::Normal;
                Effect::Open(parts[1].clone())
            } else {
                Effect::Done
            }
        } else if str_eq(cmd, "close") {
            app.close_file();
            Effect::Done
        } else if str_eq(cmd, "t") || str_eq(cmd, "tree") {
            app.show_file_tree = !app.show_file_tree;
            if app.show_file_tree {
                app.mode = AppMode::FileTree;
            } else {
                app.mode = AppMode::Normal;
            }
            Effect::Done
        } else if str_eq(cmd, "config") {
            Effect::OpenConfig
        } else if str_eq(cmd, "help") {
            app.show_help();
            app.command_input = empty_string();
            Effect::Done
        } else if str_eq(cmd, "chkey") {
            app.config.key_bind_mode = KeyBindMode::Emacs;
            app.mode = AppMode::Insert;
            Effect::Done
        } else {
            app.mode = AppMode::Normal;
            Effect::Done
        };
        app.command_input = empty_string();
        e
    }

    fn handle_command(&self, key: &KeyEvent, app: &mut App) -> (e: Effect)
        ensures
            vim_command_step(*old(app), *key, *final(app), e),
    {
        match &key.code {
            KeyCode::Esc => {
                app.mode = AppMode::Normal;
                app.command_input = empty_string();
                Effect::Done
            },
            KeyCode::Enter => self.run_command(app),
            KeyCode::Backspace => {
                if char_count(&app.command_input) == 0 {
                    app.mode = AppMode::Normal;
                } else {
                    pop_last(&mut app.command_input);
                }
                Effect::Done
            },
            KeyCode::Char(c) => {
                string_push(&mut app.command_input, *c);
                Effect::Done
            },
            _ => Effect::Done,
        }
    }

    fn handle_file_tree(&self, key: &KeyEvent, app: &mut App) -> (e: Effect)
        ensures
            vim_tree_step(*old(app), *key, *final(app), e),
    {
        match &key.code {
            KeyCode::Char(c) => {
                if *c == 'q' {
                    app.mode = AppMode::Normal;
                    Effect::Done
                } else if *c == 'j' {
                    app.file_tree_next();
                    Effect::Done
                } else if *c == 'k' {
                    app.file_tree_prev();
                    Effect::Done
                } else if *c == 'h' {
                    app.file_tree_parent()
                } else {
                    Effect::Done
                }
            },
            KeyCode::Esc => {
                app.mode = AppMode::Normal;
                Effect::Done
            },
            KeyCode::Enter => app.file_tree_select(),
            KeyCode::Backspace => app.file_tree_parent(),
            _ => Effect::Done,
        }
    }

    fn handle_confirm(&self, key: &KeyEvent, app: &mut App) -> (e: Effect)
        ensures
            vim_confirm_step(*old(app), *key, *final(app), e),
    {
        match &key.code {
            KeyCode::Char(c) => {
                if *c == 'y' || *c == 'Y' {
                    app.confirm_action()
                } else if *c == 'n' || *c == 'N' {
                    app.cancel_confirm();
                    Effect::Done
                } else {
                    Effect::Done
                }
            },
            KeyCode::Esc => {
                app.cancel_confirm();
                Effect::Done
            },
            _ => Effect::Done,
        }
    }

    fn handle_help_keys(&self, key: &KeyEvent, app: &mut App)
        requires
            key.code == KeyCode::Char('j') ==> old(app).help_scroll_offset < usize::MAX,
        ensures
            vim_help_step(*old(app), *key, *final(app)),
    {
        match &key.code {
            KeyCode::Char(c) => {
                if *c == 'q' {
                    app.mode = AppMode::Insert;
                } else if *c == 'j' {
                    app.help_scroll_offset = app.help_scroll_offset + 1;
                } else if *c == 'k' {
                    app.help_scroll_offset = if app.help_scroll_offset > 0 { app.help_scroll_offset - 1 } else { 0 };
                }
            },
            KeyCode::Esc => {
                app.mode = AppMode::Insert;
            },
            _ => {},
        }
    }

    fn handle_search(&self, key: &KeyEvent, app: &mut App)
        requires
            (key.code is Enter && old(app).search.results@.len() > 0) ==> old(app).search.current_match_idx < usize::MAX,
        ensures
            vim_search_step(*old(app), *key, *final(app)),
    {
        match &key.code {
            KeyCode::Enter => {
                let n = app.search.results.len();
                if n > 0 {
                    app.search.current_match_idx = (app.search.current_match_idx + 1) % n;
                    app.jump_to_current_search_result();
                    let count = decimal(n as u128);
                    let msg = concatenated("Found ", count.as_str());
                    app.status_message = Some(concatenated(msg.as_str(), " matches"));
                    app.mode = AppMode::Normal;
                }
            },
            KeyCode::Esc => {
                app.mode = AppMode::Normal;
                app.search.results.clear();
                app.status_message = None;
            },
            KeyCode::Char(c) => {
                if *c == 'q' {
                    app.mode = AppMode::Normal;
                    app.search.results.clear();
                    app.status_message = None;
                } else {
                    string_push(&mut app.search.query, *c);
                    app.execute_search();
                }
            },
            KeyCode::Backspace => {
                pop_last(&mut app.search.query);
                app.execute_search();
            },
            _ => {},
        }
    }

    /// Handles one key press in the editor's current mode, and returns what
    /// the surrounding program has to do next (read or write files).
    pub fn handle_key(&self, key: KeyEvent, app: &mut App) -> (e: Effect)
        requires
            vim_ready(*old(app), key),
        ensures
            vim_step(*old(app), key, *final(app), e),
    {
        match app.mode {
            AppMode::Normal => {
                self.handle_normal(&key, app);
                Effect::Done
            },
            AppMode::Insert => {
                if app.is_readonly {
                    app.status_message = Some("Error: File is Read-Only".to_owned());
                    app.mode = AppMode::Normal;
                } else {
                    self.handle_insert(&key, app);
                }
                Effect::Done
            },
            AppMode::Command => self.handle_command(&key, app),
            AppMode::FileTree => self.handle_file_tree(&key, app),
            AppMode::Confirm => self.handle_confirm(&key, app),
            AppMode::Help => {
                self.handle_help_keys(&key, app);
                Effect::Done
            },
            AppMode::Search => {
                self.handle_search(&key, app);
                Effect::Done
            },
            AppMode::Quit => Effect::Done,
        }
    }
}

} // verus!
