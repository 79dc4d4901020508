//! Emacs key bindings: always inserting, commands on control, meta and the
//! `C-x` prefix.
use vstd::prelude::*;
use crate::app::{App, AppMode, ConfirmAction, Effect};
use crate::config::{Config, KeyBindMode};
use crate::edit::{
    backspaced, char_deleted, char_inserted, line_killed, newline_inserted, put_above,
    tab_inserted,
};
use crate::files::{
    canceled, close_asked, confirmed, help_shown, quit_asked, says, tree_parent_effect, tree_select_effect,
};
use crate::help::{help_text, text_lines};
use crate::history::after_finish_group;
use crate::keys::{undefined_key, undefined_key_message, KeyCode, KeyEvent};
use crate::text::{
    char_count, concatenated, decimal, empty_string, pop_last, split_words, str_eq, string_push,
    words,
};
use crate::ready::{lemma_redo_ready, lemma_undo_ready, redo_ready, undo_ready};
use crate::undo::{redone, undone};
use crate::vim::{found_message, next_match, requeried, word_back_ready};

verus! {

/// The handler of the Emacs key bindings.
pub struct EmacsHandler;

/// A control key does not run into a missing line, an overflow or an edit
/// that cannot be undone or redone.
pub open spec fn emacs_control_ready(a: App, key: KeyEvent) -> bool {
    let lines = a.buffer.lines@.len();
    match key.code {
        KeyCode::Char(c) => if c == 'n' || c == 'd' || c == 'k' || c == 'v' {
            lines >= 1
        } else if c == 'f' || c == 'e' {
            a.cursor_y < lines
        } else if c == 'o' {
            a.cursor_y < usize::MAX
        } else if c == '/' {
            undo_ready(a)
        } else if c == '_' {
            key.shift ==> redo_ready(a)
        } else {
            true
        },
        _ => true,
    }
}

/// A meta key does not run into a missing line.
pub open spec fn emacs_alt_ready(a: App, code: KeyCode) -> bool {
    match code {
        KeyCode::Char(c) => if c == 'f' || c == '>' {
            a.buffer.lines@.len() >= 1
        } else if c == 'b' {
            word_back_ready(a)
        } else {
            true
        },
        _ => true,
    }
}

/// A plain key does not overflow the cursor or run into a missing line.
pub open spec fn emacs_plain_ready(a: App, code: KeyCode) -> bool {
    match code {
        KeyCode::Enter => a.cursor_y < usize::MAX,
        KeyCode::Char(_) => a.cursor_x < usize::MAX,
        KeyCode::Tab => a.cursor_x + 2 * a.config.tab_size <= usize::MAX,
        KeyCode::Down => a.buffer.lines@.len() >= 1,
        KeyCode::Right => a.cursor_y < a.buffer.lines@.len(),
        _ => true,
    }
}

/// A key while editing can run: see the three kinds of keys above; after
/// `C-x`, `u` undoes.
pub open spec fn emacs_edit_ready(a: App, key: KeyEvent) -> bool {
    match a.pending_cmd {
        Some(p) => (p == 'x' && key.code == KeyCode::Char('u')) ==> undo_ready(a),
        None => if key.control {
            emacs_control_ready(a, key)
        } else if key.alt {
            emacs_alt_ready(a, key.code)
        } else {
            emacs_plain_ready(a, key.code)
        },
    }
}

/// A key can run in whatever mode the editor is.
pub open spec fn emacs_ready(a: App, key: KeyEvent) -> bool {
    match a.mode {
        AppMode::Help | AppMode::FileTree | AppMode::Command | AppMode::Confirm => true,
        AppMode::Search => (key.control && key.code == KeyCode::Char('s') && a.search.results@.len() > 0)
            ==> a.search.current_match_idx < usize::MAX,
        AppMode::Normal => !a.is_readonly ==> emacs_edit_ready(a, key),
        _ => emacs_edit_ready(a, key),
    }
}

/// `b` is `a` after a control key: `C-x` starts a prefix; `C-p`, `C-n`,
/// `C-b`, `C-f`, `C-a`, `C-e` move; `C-d` deletes; `C-k` kills to the end of
/// the line and closes the edit group; `C-o` opens a line after the cursor;
/// `C-y` yanks; `C-g` quits; `C-h` shows the help; `C-l` centers; `C-v`
/// scrolls down; `C-/` undoes and `C-_` redoes; `C-s` starts a search.
pub open spec fn emacs_control_step(a: App, key: KeyEvent, b: App) -> bool {
    match key.code {
        KeyCode::Char(c) => if c == 'x' {
            b == App { pending_cmd: Some('x'), ..a }
        } else if c == 'p' {
            b == a.step_up()
        } else if c == 'n' {
            b == a.step_down()
        } else if c == 'b' {
            b == a.step_left()
        } else if c == 'f' {
            b == a.step_right()
        } else if c == 'a' {
            b == App { cursor_x: 0, ..a }
        } else if c == 'e' {
            b == App { cursor_x: a.buffer.text()[a.cursor_y as int].len() as usize, ..a }
        } else if c == 'd' {
            char_deleted(a, b)
        } else if c == 'k' {
            line_killed(a, App { history: a.history, ..b }) && b.history@ == after_finish_group(a.history@)
        } else if c == 'o' {
            &&& newline_inserted(a, b.with_cursor(0, (a.cursor_y + 1) as usize))
            &&& b.cursor_x == a.cursor_x
            &&& b.cursor_y == a.cursor_y
        } else if c == 'y' {
            put_above(a, b)
        } else if c == 'g' {
            quit_asked(a, b)
        } else if c == 'h' {
            help_shown(a, b)
        } else if c == 'l' {
            b == a.centered()
        } else if c == 'v' {
            b == a.half_page_down()
        } else if c == '/' {
            undone(a, b)
        } else if c == '_' && key.shift {
            redone(a, b)
        } else if c == 's' {
            &&& b.search.query@ == Seq::<char>::empty()
            &&& b.search.results@.len() == 0
            &&& b.search.current_match_idx == 0
            &&& says(b, "Search: "@)
            &&& b == App { mode: AppMode::Search, search: b.search, status_message: b.status_message, ..a }
        } else {
            b == a
        },
        _ => b == a,
    }
}

/// `b` is `a` after a meta key: `M-f`, `M-b` move by words, `M-<` and `M->`
/// go to the start and end of the file, `M-v` scrolls up, `M-x` opens the
/// command line.
pub open spec fn emacs_alt_step(a: App, code: KeyCode, b: App) -> bool {
    match code {
        KeyCode::Char(c) => if c == 'f' {
            b == a.word_forward()
        } else if c == 'b' {
            b == a.word_backward()
        } else if c == '<' {
            b == a.with_cursor(0, 0)
        } else if c == '>' {
            let n = a.buffer.text().len();
            let y = if n > 0 { (n - 1) as usize } else { 0 };
            b == a.with_cursor(a.buffer.text()[y as int].len() as usize, y)
        } else if c == 'v' {
            b == a.half_page_up()
        } else if c == 'x' {
            &&& b.command_input@ == Seq::<char>::empty()
            &&& b == App { mode: AppMode::Command, command_input: b.command_input, status_message: None, ..a }
        } else {
            b == a
        },
        _ => b == a,
    }
}

/// `b` is `a` after a key with no modifier: it is typed (Enter, Backspace
/// and Tab edit too), the arrows move, Esc drops a prefix.
pub open spec fn emacs_plain_step(a: App, code: KeyCode, b: App) -> bool {
    match code {
        KeyCode::Enter => newline_inserted(a, b),
        KeyCode::Backspace => backspaced(a, b),
        KeyCode::Char(c) => char_inserted(a, b, c),
        KeyCode::Esc => says(b, "Quit"@) && b == App { pending_cmd: None, status_message: b.status_message, ..a },
        KeyCode::Tab => tab_inserted(a, b),
        KeyCode::Left => b == a.step_left(),
        KeyCode::Down => b == a.step_down(),
        KeyCode::Up => b == a.step_up(),
        KeyCode::Right => b == a.step_right(),
        _ => b == a,
    }
}

/// `b` is `a` after the key that follows the prefix `C-<prefix>` (already
/// dropped from `a`), which asked for `e`: `C-x C-d` opens the file tree,
/// `C-x C-s` saves, `C-x C-c` quits, `C-x C-k` closes the file, `C-x C-f`
/// starts `find-file`, `C-x u` undoes; any other key is reported undefined.
pub open spec fn emacs_prefix_step(a: App, prefix: char, key: KeyEvent, b: App, e: Effect) -> bool {
    let x = prefix == 'x';
    if x && key.code == KeyCode::Char('d') && key.control {
        b == App { mode: AppMode::FileTree, ..a } && e is Done
    } else if x && key.code == KeyCode::Char('s') && key.control {
        b == a && e is SaveAndReload
    } else if x && key.code == KeyCode::Char('c') && key.control {
        quit_asked(a, b) && e is Done
    } else if x && key.code == KeyCode::Char('k') && key.control {
        close_asked(a, b) && e is Done
    } else if x && key.code == KeyCode::Char('f') && key.control {
        &&& e is Done
        &&& b.command_input@ == "find-file "@
        &&& b == App { mode: AppMode::Command, command_input: b.command_input, ..a }
    } else if x && key.code == KeyCode::Char('u') {
        undone(a, b) && e is Done
    } else {
        &&& e is Done
        &&& says(b, undefined_key_message(prefix, key.code))
        &&& b == App { status_message: b.status_message, ..a }
    }
}

/// `b` is `a` after a key while editing, which asked for `e`: after a
/// prefix, the prefixed command; else by the modifier held.
pub open spec fn emacs_edit_step(a: App, key: KeyEvent, b: App, e: Effect) -> bool {
    match a.pending_cmd {
        Some(p) => emacs_prefix_step(App { pending_cmd: None, ..a }, p, key, b, e),
        None => e is Done && if key.control {
            emacs_control_step(a, key, b)
        } else if key.alt {
            emacs_alt_step(a, key.code, b)
        } else {
            emacs_plain_step(a, key.code, b)
        },
    }
}

/// `b` is `a` after `key` in the file tree, which asked for `e`: `j`, `C-n`
/// and `k`, `C-p` move, Enter or `f` select, `^` goes up, `C-g` leaves.
pub open spec fn emacs_tree_step(a: App, key: KeyEvent, b: App, e: Effect) -> bool {
    match key.code {
        KeyCode::Char(c) => if c == 'j' || (c == 'n' && key.control) {
            b == a.tree_next() && e is Done
        } else if c == 'k' || (c == 'p' && key.control) {
            b == a.tree_prev() && e is Done
        } else if c == 'f' {
            b == a && tree_select_effect(a, e)
        } else if c == '^' {
            b == a && tree_parent_effect(a, e)
        } else if c == 'g' && key.control {
            b == App { mode: AppMode::Insert, ..a } && e is Done
        } else {
            b == a && e is Done
        },
        KeyCode::Enter => b == a && tree_select_effect(a, e),
        _ => b == a && e is Done,
    }
}

/// `b` is `a` after `key` while a yes/no question is asked, which asked for
/// `e`: `y` confirms, `C-n` or `C-g` cancel.
pub open spec fn emacs_confirm_step(a: App, key: KeyEvent, b: App, e: Effect) -> bool {
    match key.code {
        KeyCode::Char(c) => if c == 'y' || c == 'Y' {
            confirmed(a, b, e)
        } else if (c == 'n' || c == 'N' || c == 'g') && key.control {
            canceled(a, b) && e is Done
        } else {
            b == a && e is Done
        },
        _ => b == a && e is Done,
    }
}

/// `m` is `a` after the command `w[0]` with arguments `w[1..]`, which asked
/// for `e`: `quit`, `kill-buffer`, `find-file path`, `save-buffer`, `chkey`
/// (to the Vim bindings), `help`; any other is reported unknown.
pub open spec fn emacs_command_run(a: App, w: Seq<Seq<char>>, m: App, e: Effect) -> bool {
    if w.len() == 0 {
        m == a && e is Done
    } else {
        let cmd = w[0];
        if cmd == "quit"@ {
            quit_asked(a, m) && e is Done
        } else if cmd == "kill-buffer"@ {
            close_asked(a, m) && e is Done
        } else if cmd == "find-file"@ {
            m == a && if w.len() > 1 { e matches Effect::Open(p) && p@ == w[1] } else { e is Done }
        } else if cmd == "save-buffer"@ {
            m == a && e is SaveAndReload
        } else if cmd == "chkey"@ {
            m == App { config: Config { key_bind_mode: KeyBindMode::Vim, ..a.config }, ..a } && e is Done
        } else if cmd == "help"@ {
            help_shown(a, m) && e is Done
        } else {
            &&& e is Done
            &&& says(m, "Unknown command: "@ + cmd)
            &&& m == App { status_message: m.status_message, ..a }
        }
    }
}

/// `b` is `a` after running the command line, which asked for `e`: the
/// command runs (`emacs_command_run`), the line is emptied, and command mode
/// gives way to insert mode. (No command itself switches to insert mode, so
/// the state the command left is `b` with the old line and, where `b` is in
/// insert mode, command mode.)
pub open spec fn emacs_command_enter(a: App, b: App, e: Effect) -> bool {
    let m = App {
        command_input: a.command_input,
        mode: if b.mode == AppMode::Insert { AppMode::Command } else { b.mode },
        ..b
    };
    &&& b.command_input@ == Seq::<char>::empty()
    &&& b.mode != AppMode::Command
    &&& emacs_command_run(App { mode: AppMode::Command, ..a }, words(a.command_input@), m, e)
}

/// `b` is `a` after `key` in command mode, which asked for `e`: Enter runs
/// the command, `C-g` (or `C-Esc`) leaves, characters and Backspace edit.
pub open spec fn emacs_command_step(a: App, key: KeyEvent, b: App, e: Effect) -> bool {
    match key.code {
        KeyCode::Enter => emacs_command_enter(a, b, e),
        KeyCode::Esc => e is Done && if key.control {
            b.command_input@ == Seq::<char>::empty() && b == App {
                mode: AppMode::Insert,
                command_input: b.command_input,
                ..a
            }
        } else {
            b == a
        },
        KeyCode::Char(c) => e is Done && if c == 'g' && key.control {
            b.command_input@ == Seq::<char>::empty() && b == App {
                mode: AppMode::Insert,
                command_input: b.command_input,
                ..a
            }
        } else {
            b.command_input@ == a.command_input@.push(c) && b == App { command_input: b.command_input, ..a }
        },
        KeyCode::Backspace => {
            &&& e is Done
            &&& b.command_input@ == (if a.command_input@.len() > 0 {
                a.command_input@.drop_last()
            } else {
                a.command_input@
            })
            &&& b == App { command_input: b.command_input, ..a }
        },
        _ => b == a && e is Done,
    }
}

/// How far the help can scroll: its lines beyond those that fit in a pane of
/// the file tree's height.
pub open spec fn help_max_offset(a: App) -> nat {
    let total = text_lines(help_text(a.config.key_bind_mode)).len();
    let h = a.file_viewport_height as nat;
    if total > h { (total - h) as nat } else { 0 }
}

/// `b` is `a` after `key` in the help: `q`, Esc or `C-g` close it, `n` or Down
/// scroll down as far as the help goes, `p` or Up scroll up.
pub open spec fn emacs_help_step(a: App, key: KeyEvent, b: App) -> bool {
    let down = b == App {
        help_scroll_offset: if a.help_scroll_offset < help_max_offset(a) {
            (a.help_scroll_offset + 1) as usize
        } else {
            a.help_scroll_offset
        },
        ..a
    };
    let up = b == App {
        help_scroll_offset: if a.help_scroll_offset > 0 { (a.help_scroll_offset - 1) as usize } else { 0 },
        ..a
    };
    let close = b == App { mode: AppMode::Insert, ..a };
    match key.code {
        KeyCode::Char(c) => if c == 'q' || (c == 'g' && key.control) {
            close
        } else if c == 'n' {
            down
        } else if c == 'p' {
            up
        } else {
            b == a
        },
        KeyCode::Esc => close,
        KeyCode::Down => down,
        KeyCode::Up => up,
        _ => b == a,
    }
}

/// `b` is `a` after `key` in search mode: Enter ends the search and reports
/// the number of matches, `C-g` (or `C-Esc`) drops it, `C-s` jumps to the
/// next result, characters and Backspace edit the query and search again.
pub open spec fn emacs_search_step(a: App, key: KeyEvent, b: App) -> bool {
    let n = a.search.results@.len();
    match key.code {
        KeyCode::Enter => says(b, found_message(n)) && b == App {
            mode: AppMode::Insert,
            status_message: b.status_message,
            ..a
        },
        KeyCode::Esc => if key.control {
            search_dropped(a, b)
        } else {
            b == a
        },
        KeyCode::Backspace => {
            &&& b.search.query@ == (if a.search.query@.len() > 0 {
                a.search.query@.drop_last()
            } else {
                a.search.query@
            })
            &&& requeried(a, b)
        },
        KeyCode::Char(c) => if c == 'g' && key.control {
            search_dropped(a, b)
        } else if c == 's' && key.control {
            b == if n > 0 { next_match(a) } else { a }
        } else {
            b.search.query@ == a.search.query@.push(c) && requeried(a, b)
        },
        _ => b == a,
    }
}

/// `b` is `a` after the search was dropped: query and results gone, back to
/// inserting, status line cleared.
pub open spec fn search_dropped(a: App, b: App) -> bool {
    &&& b.search.query@ == Seq::<char>::empty()
    &&& b.search.results@.len() == 0
    &&& b.search.current_match_idx == 0
    &&& b == App { mode: AppMode::Insert, search: b.search, status_message: None, ..a }
}

/// `b` is `a` after `key` under the Emacs bindings, which asked for `e`. The
/// editor always inserts: normal mode turns into insert mode first, except
/// in a read-only file, which only reports it.
pub open spec fn emacs_step(a: App, key: KeyEvent, b: App, e: Effect) -> bool {
    match a.mode {
        AppMode::Help => emacs_help_step(a, key, b) && e is Done,
        AppMode::FileTree => emacs_tree_step(a, key, b, e),
        AppMode::Command => emacs_command_step(a, key, b, e),
        AppMode::Confirm => emacs_confirm_step(a, key, b, e),
        AppMode::Search => emacs_search_step(a, key, b) && e is Done,
        AppMode::Normal => if a.is_readonly {
            &&& e is Done
            &&& says(b, "File is Read-Only"@)
            &&& b == App { status_message: b.status_message, ..a }
        } else {
            emacs_edit_step(App { mode: AppMode::Insert, ..a }, key, b, e)
        },
        _ => emacs_edit_step(a, key, b, e),
    }
}

impl EmacsHandler {
    fn handle_control_codes(&self, key: &KeyEvent, app: &mut App)
        requires
            emacs_control_ready(*old(app), *key),
        ensures
            emacs_control_step(*old(app), *key, *final(app)),
    {
        match &key.code {
            KeyCode::Char(c) => {
                let c = *c;
                if c == 'x' {
                    app.pending_cmd = Some('x');
                } else if c == 'p' {
                    app.move_cursor_up();
                } else if c == 'n' {
                    app.move_cursor_down();
                } else if c == 'b' {
                    app.move_cursor_left();
                } else if c == 'f' {
                    app.move_cursor_right();
                } else if c == 'a' {
                    app.cursor_x = 0;
                } else if c == 'e' {
                    app.cursor_x = char_count(&app.buffer.lines[app.cursor_y]);
                } else if c == 'd' {
                    app.delete_char();
                } else if c == 'k' {
                    app.kill_line();
                    app.history.finish_group();
                } else if c == 'o' {
                    let saved_x = app.cursor_x;
                    let saved_y = app.cursor_y;
                    app.insert_newline();
                    app.cursor_x = saved_x;
                    app.cursor_y = saved_y;
                } else if c == 'y' {
                    app.put_before();
                } else if c == 'g' {
                    if app.is_buffer_modified() {
                        app.request_confirm("Discord unsaved changes?", ConfirmAction::Quit);
                    } else {
                        app.mode = AppMode::Quit;
                    }
                } else if c == 'h' {
                    app.show_help();
                } else if c == 'l' {
                    app.center_cursor();
                } else if c == 'v' {
                    app.scroll_half_page_down();
                } else if c == '/' {
                    proof {
                        lemma_undo_ready(*app);
                    }
                    app.undo();
                } else if c == '_' && key.shift {
                    proof {
                        lemma_redo_ready(*app);
                    }
                    app.redo();
                } else if c == 's' {
                    app.mode = AppMode::Search;
                    app.search.clear();
                    app.status_message = Some("Search: ".to_owned());
                }
            },
            _ => {},
        }
    }

    fn handle_alt_codes(&self, code: &KeyCode, app: &mut App)
        requires
            emacs_alt_ready(*old(app), *code),
        ensures
            emacs_alt_step(*old(app), *code, *final(app)),
    {
        match code {
            KeyCode::Char(c) => {
                let c = *c;
                if c == 'f' {
                    app.move_word_forward();
                } else if c == 'b' {
                    app.move_word_backward();
                } else if c == '<' {
                    app.cursor_y = 0;
                    app.cursor_x = 0;
                } else if c == '>' {
                    let n = app.buffer.lines.len();
                    app.cursor_y = if n > 0 { n - 1 } else { 0 };
                    app.cursor_x = char_count(&app.buffer.lines[app.cursor_y]);
                } else if c == 'v' {
                    app.scroll_half_page_up();
                } else if c == 'x' {
                    app.mode = AppMode::Command;
                    app.command_input = empty_string();
                    app.status_message = None;
                }
            },
            _ => {},
        }
    }

    fn handle_plain_keys(&self, code: &KeyCode, app: &mut App)
        requires
            emacs_plain_ready(*old(app), *code),
        ensures
            emacs_plain_step(*old(app), *code, *final(app)),
    {
        match code {
            KeyCode::Enter => app.insert_newline(),
            KeyCode::Backspace => app.handle_backspace(),
            KeyCode::Char(c) => app.insert_char(*c),
            KeyCode::Esc => {
                app.pending_cmd = None;
                app.status_message = Some("Quit".to_owned());
            },
            KeyCode::Tab => app.insert_tab(),
            KeyCode::Left => app.move_cursor_left(),
            KeyCode::Down => app.move_cursor_down(),
            KeyCode::Up => app.move_cursor_up(),
            KeyCode::Right => app.move_cursor_right(),
            _ => {},
        }
    }

    fn handle_prefix_codes(&self, prefix: char, key: &KeyEvent, app: &mut App) -> (e: Effect)
        requires
            (prefix == 'x' && key.code == KeyCode::Char('u')) ==> undo_ready(*old(app)),
        ensures
            emacs_prefix_step(App { pending_cmd: None, ..*old(app) }, prefix, *key, *final(app), e),
    {
        app.clear_pending();
        let x = prefix == 'x';
        let (is_char, c) = match &key.code {
            KeyCode::Char(c) => (true, *c),
            _ => (false, ' '),
        };
        if x && is_char && c == 'd' && key.control {
            app.mode = AppMode::FileTree;
            Effect::Done
        } else if x && is_char && c == 's' && key.control {
            Effect::SaveAndReload
        } else if x && is_char && c == 'c' && key.control {
            if app.is_buffer_modified() {
                app.request_confirm("Discord unsaved changes?", ConfirmAction::Quit);
            } else {
                app.mode = AppMode::Quit;
            }
            Effect::Done
        } else if x && is_char && c == 'k' && key.control {
            app.close_file();
            Effect::Done
        } else if x && is_char && c == 'f' && key.control {
            app.mode = AppMode::Command;
            app.command_input = "find-file ".to_owned();
            Effect::Done
        } else if x && is_char && c == 'u' {
            proof {
                lemma_undo_ready(*app);
            }
            app.undo();
            Effect::Done
        } else {
            app.status_message = Some(undefined_key(prefix, &key.code));
            Effect::Done
        }
    }

    fn handle_file_tree(&self, key: &KeyEvent, app: &mut App) -> (e: Effect)
        ensures
            emacs_tree_step(*old(app), *key, *final(app), e),
    {
        match &key.code {
            KeyCode::Char(c) => {
                let c = *c;
                if c == 'j' || (c == 'n' && key.control) {
                    app.file_tree_next();
                    Effect::Done
                } else if c == 'k' || (c == 'p' && key.control) {
                    app.file_tree_prev();
                    Effect::Done
                } else if c == 'f' {
                    app.file_tree_select()
                } else if c == '^' {
                    app.file_tree_parent()
                } else if c == 'g' && key.control {
                    app.mode = AppMode::Insert;
                    Effect::Done
                } else {
                    Effect::Done
                }
            },
            KeyCode::Enter => app.file_tree_select(),
            _ => Effect::Done,
        }
    }

    fn handle_confirm(&self, key: &KeyEvent, app: &mut App) -> (e: Effect)
        ensures
            emacs_confirm_step(*old(app), *key, *final(app), e),
    {
        match &key.code {
            KeyCode::Char(c) => {
                let c = *c;
                if c == 'y' || c == 'Y' {
                    app.confirm_action()
                } else if (c == 'n' || c == 'N' || c == 'g') && key.control {
                    app.cancel_confirm();
                    Effect::Done
                } else {
                    Effect::Done
                }
            },
            _ => Effect::Done,
        }
    }

    fn run_command(&self, app: &mut App) -> (e: Effect)
        requires
            old(app).mode == AppMode::Command,
        ensures
            emacs_command_enter(*old(app), *final(app), e),
    {
        let parts = split_words(app.command_input.as_str());
        let e = if parts.len() > 0 {
            let cmd = parts[0].as_str();
            if str_eq(cmd, "quit") {
                if app.is_buffer_modified() {
                    app.request_confirm("Discord unsaved changes?", ConfirmAction::Quit);
                } else {
                    app.mode = AppMode::Quit;
                }
                Effect::Done
            } else if str_eq(cmd, "kill-buffer") {
                app.close_file();
                Effect::Done
            } else if str_eq(cmd, "find-file") {
                if parts.len() > 1 {
                    Effect::Open(parts[1].clone())
                } else {
                    Effect::Done
                }
            } else if str_eq(cmd, "save-buffer") {
                Effect::SaveAndReload
            } else if str_eq(cmd, "chkey") {
                app.config.key_bind_mode = KeyBindMode::Vim;
                Effect::Done
            } else if str_eq(cmd, "help") {
                app.show_help();
                app.command_input = empty_string();
                Effect::Done
            } else {
                app.status_message = Some(concatenated("Unknown command: ", cmd));
                Effect::Done
            }
        } else {
            Effect::Done
        };
        app.command_input = empty_string();
        if app.mode == AppMode::Command {
            app.mode = AppMode::Insert;
        }
        e
    }

    fn handle_command(&self, key: &KeyEvent, app: &mut App) -> (e: Effect)
        requires
            old(app).mode == AppMode::Command,
        ensures
            emacs_command_step(*old(app), *key, *final(app), e),
    {
        match &key.code {
            KeyCode::Enter => self.run_command(app),
            KeyCode::Esc => {
                if key.control {
                    app.command_input = empty_string();
                    app.mode = AppMode::Insert;
                }
                Effect::Done
            },
            KeyCode::Char(c) => {
                if *c == 'g' && key.control {
                    app.command_input = empty_string();
                    app.mode = AppMode::Insert;
                } else {
                    string_push(&mut app.command_input, *c);
                }
                Effect::Done
            },
            KeyCode::Backspace => {
                pop_last(&mut app.command_input);
                Effect::Done
            },
            _ => Effect::Done,
        }
    }

    fn handle_help_keys(&self, key: &KeyEvent, app: &mut App)
        ensures
            emacs_help_step(*old(app), *key, *final(app)),
    {
        let help_content = app.get_help_content();
        let total_lines = help_content.len();
        let visible_height = app.file_viewport_height as usize;
        let max_offset = if total_lines > visible_height { total_lines - visible_height } else { 0 };
        let (down, up, close) = match &key.code {
            KeyCode::Char(c) => {
                let c = *c;
                (c == 'n', c == 'p', c == 'q' || (c == 'g' && key.control))
            },
            KeyCode::Esc => (false, false, true),
            KeyCode::Down => (true, false, false),
            KeyCode::Up => (false, true, false),
            _ => (false, false, false),
        };
        if close {
            app.mode = AppMode::Insert;
        } else if down {
            if app.help_scroll_offset < max_offset {
                app.help_scroll_offset = app.help_scroll_offset + 1;
            }
        } else if up {
            app.help_scroll_offset = if app.help_scroll_offset > 0 { app.help_scroll_offset - 1 } else { 0 };
        }
    }

    fn handle_search_keys(&self, key: &KeyEvent, app: &mut App)
        requires
            (key.control && key.code == KeyCode::Char('s') && old(app).search.results@.len() > 0)
                ==> old(app).search.current_match_idx < usize::MAX,
        ensures
            emacs_search_step(*old(app), *key, *final(app)),
    {
        match &key.code {
            KeyCode::Enter => {
                app.mode = AppMode::Insert;
                let count = decimal(app.search.results.len() as u128);
                let msg = concatenated("Found ", count.as_str());
                app.status_message = Some(concatenated(msg.as_str(), " matches"));
            },
            KeyCode::Esc => {
                if key.control {
                    app.mode = AppMode::Insert;
                    app.search.clear();
                    app.status_message = None;
                }
            },
            KeyCode::Backspace => {
                pop_last(&mut app.search.query);
                app.execute_search();
            },
            KeyCode::Char(c) => {
                let c = *c;
                if c == 'g' && key.control {
                    app.mode = AppMode::Insert;
                    app.search.clear();
                    app.status_message = None;
                } else if c == 's' && key.control {
                    let n = app.search.results.len();
                    if n > 0 {
                        app.search.current_match_idx = (app.search.current_match_idx + 1) % n;
                        app.jump_to_current_search_result();
                    }
                } else {
                    string_push(&mut app.search.query, c);
                    app.execute_search();
                }
            },
            _ => {},
        }
    }

    fn handle_editing(&self, key: &KeyEvent, app: &mut App) -> (e: Effect)
        requires
            emacs_edit_ready(*old(app), *key),
        ensures
            emacs_edit_step(*old(app), *key, *final(app), e),
    {
        match app.pending_cmd {
            Some(prefix) => self.handle_prefix_codes(prefix, key, app),
            None => {
                if key.control {
                    self.handle_control_codes(key, app);
                } else if key.alt {
                    self.handle_alt_codes(&key.code, app);
                } else {
                    self.handle_plain_keys(&key.code, app);
                }
                Effect::Done
            },
        }
    }

    /// Handles one key press in the editor's current mode, and returns what
    /// the surrounding program has to do next (read or write files).
    pub fn handle_key(&self, key: KeyEvent, app: &mut App) -> (e: Effect)
        requires
            emacs_ready(*old(app), key),
        ensures
            emacs_step(*old(app), key, *final(app), e),
    {
        match app.mode {
            AppMode::Help => {
                self.handle_help_keys(&key, app);
                Effect::Done
            },
            AppMode::FileTree => self.handle_file_tree(&key, app),
            AppMode::Command => self.handle_command(&key, app),
            AppMode::Confirm => self.handle_confirm(&key, app),
            AppMode::Search => {
                self.handle_search_keys(&key, app);
                Effect::Done
            },
            AppMode::Normal => {
                if app.is_readonly {
                    app.mode = AppMode::Normal;
                    app.status_message = Some("File is Read-Only".to_owned());
                    Effect::Done
                } else {
                    app.mode = AppMode::Insert;
                    self.handle_editing(&key, app)
                }
            },
            _ => self.handle_editing(&key, app),
        }
    }
}

} // verus!
