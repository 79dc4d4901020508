//! Opening, saving and closing files, the file tree, confirmations,
//! settings, help and search.
use vstd::prelude::*;
use crate::app::{App, AppMode, ConfirmAction, Effect};
use crate::buff::{join_with_newlines, lines_view, Buffer};
use crate::config::{default_config, Config};
use crate::file_tree::{entry_paths, paths_of, scroll_offset, scrolled_offset};
use crate::highlight::{chosen_language, GrammarSet, Highlighter};
use crate::history::{History, HistoryManager};
use crate::paths::{
    debug_quoted, entries_sorted, opt_chars, path_extension, path_parent, sort_entries, spec_debug_quoted,
    spec_path_extension, spec_path_parent, FileEntry,
};
use crate::search::{all_matches, find_matches, SearchState};
use crate::text::{concatenated, empty_string, str_eq};

verus! {

/// The highlighter chose its language by the extension of `path`
/// (`chosen_language`), keeping its grammars; a path without an extension
/// leaves it as it was.
pub open spec fn language_follows(old_h: Highlighter, h: Highlighter, path: Seq<char>) -> bool {
    match spec_path_extension(path) {
        Some(ext) => {
            &&& h.language() == chosen_language(old_h.grammars(), ext)
            &&& h.grammars() == old_h.grammars()
        },
        None => h == old_h,
    }
}

/// The directory whose listing `update_file_list` shows for `path`: the path
/// itself when it could not be resolved, else its canonical form when that
/// is a directory, else the directory holding it.
pub open spec fn list_target(path: Seq<char>, canonical: Option<(Seq<char>, bool)>) -> Seq<char> {
    match canonical {
        None => path,
        Some((abs, is_dir)) => if is_dir {
            abs
        } else {
            match spec_path_parent(abs) {
                Some(p) => p,
                None => abs,
            }
        },
    }
}

/// The directory to list for `path`, given its canonical form and whether
/// that is a directory (`None` when it could not be resolved).
pub fn file_list_target(path: String, canonical: Option<(String, bool)>) -> (r: String)
    ensures
        r@ == list_target(
            path@,
            match canonical {
                Some((a, d)) => Some((a@, d)),
                None => None,
            },
        ),
{
    match canonical {
        None => path,
        Some((abs, is_dir)) => {
            if is_dir {
                abs
            } else {
                match path_parent(abs.as_str()) {
                    Some(p) => p,
                    None => abs,
                }
            }
        },
    }
}



/// The status line of `b` reads `msg`.
pub open spec fn says(b: App, msg: Seq<char>) -> bool {
    b.status_message matches Some(m) && m@ == msg
}

impl App {
    /// The tree selection one entry down, scrolled into view, if not on the
    /// last entry.
    pub open spec fn tree_next(self) -> App {
        if self.file_list_selected + 1 < self.file_list@.len() {
            let s = (self.file_list_selected + 1) as usize;
            App {
                file_list_selected: s,
                file_tree_offset: scrolled_offset(s, self.file_tree_offset, self.file_viewport_height as usize),
                ..self
            }
        } else {
            self
        }
    }

    /// The tree selection one entry up, scrolled into view, if not on the
    /// first entry.
    pub open spec fn tree_prev(self) -> App {
        if self.file_list_selected > 0 {
            let s = (self.file_list_selected - 1) as usize;
            App {
                file_list_selected: s,
                file_tree_offset: scrolled_offset(s, self.file_tree_offset, self.file_viewport_height as usize),
                ..self
            }
        } else {
            self
        }
    }

    /// The cursor on the current search result, if there is one.
    pub open spec fn at_search_result(self) -> App {
        if self.search.current_match_idx < self.search.results@.len() {
            let r = self.search.results@[self.search.current_match_idx as int];
            self.with_cursor(r.char_idx, r.line_idx)
        } else {
            self
        }
    }
}

/// What `file_tree_select` asks for: whether the selected entry is a
/// directory, if an entry is selected.
pub open spec fn tree_select_effect(a: App, e: Effect) -> bool {
    if a.file_list_selected < a.file_list@.len() {
        e matches Effect::SelectTreeEntry(p) && p@ == a.file_list@[a.file_list_selected as int]@
    } else {
        e is Done
    }
}

/// What `file_tree_parent` asks for: the listing of the directory above the
/// current one, if there is one.
pub open spec fn tree_parent_effect(a: App, e: Effect) -> bool {
    match spec_path_parent(a.current_dir@) {
        Some(p) => e matches Effect::ListDir(d) && d@ == p,
        None => e is Done,
    }
}

/// `b` is `a` after `show_help`: help mode from the top.
pub open spec fn help_shown(a: App, b: App) -> bool {
    &&& says(b, "Help Mode: Press Esc or q to close"@)
    &&& b == (App { mode: AppMode::Help, help_scroll_offset: 0, status_message: b.status_message, ..a })
}

/// `b` is `a` after `confirm_action`, which asked for `e`: the pending
/// action carried out and the question gone.
pub open spec fn confirmed(a: App, b: App, e: Effect) -> bool {
    match a.pending_confirm_action {
        None => b == a && e is Done,
        Some(ConfirmAction::Quit) => e is Done && b == (App {
            mode: AppMode::Quit,
            pending_confirm_action: None,
            status_message: None,
            ..a
        }),
        Some(ConfirmAction::OpenFile(p)) => (e matches Effect::Open(q) && q@ == p@) && b == (App {
            mode: AppMode::Normal,
            pending_confirm_action: None,
            status_message: None,
            ..a
        }),
        Some(ConfirmAction::CloseFile) => {
            &&& e is Done
            &&& b.buffer.text() == seq![Seq::<char>::empty()]
            &&& b.buffer.stored_text() is None
            &&& !b.buffer.modified
            &&& b == (App {
                buffer: b.buffer,
                file_path: None,
                cursor_x: 0,
                cursor_y: 0,
                mode: AppMode::Normal,
                pending_confirm_action: None,
                status_message: None,
                ..a
            })
        },
    }
}

/// `b` is `a` after `cancel_confirm`.
pub open spec fn canceled(a: App, b: App) -> bool {
    &&& says(b, "Canceled"@)
    &&& b == (App { pending_confirm_action: None, status_message: b.status_message, mode: AppMode::Normal, ..a })
}

/// `b` is `a` after `close_file`: closed, or, with unsaved changes, a
/// question asked first.
pub open spec fn close_asked(a: App, b: App) -> bool {
    if a.buffer.modified {
        &&& confirm_requested(a, b, "Discord unsaved changes?"@)
        &&& b.pending_confirm_action matches Some(ConfirmAction::CloseFile)
    } else {
        closed_file(a, b)
    }
}

/// `b` is `a` after a request to quit: quitting, or, with unsaved changes, a
/// question asked first.
pub open spec fn quit_asked(a: App, b: App) -> bool {
    if a.buffer.modified {
        &&& confirm_requested(a, b, "Discord unsaved changes?"@)
        &&& b.pending_confirm_action matches Some(ConfirmAction::Quit)
    } else {
        b == App { mode: AppMode::Quit, ..a }
    }
}

/// `b` is `a` after `execute_search`: every occurrence of the query found,
/// starting at the first.
pub open spec fn searched(a: App, b: App) -> bool {
    &&& b.search.results@ == all_matches(a.buffer.text(), a.search.query@)
    &&& b.search.current_match_idx == 0
    &&& b.search.query == a.search.query
    &&& b == (App { search: b.search, ..a })
}

impl App {
    /// A fresh editor in `current_dir`: an empty buffer, default settings,
    /// normal mode, the file tree shown but not yet listed.
    pub fn new(current_dir: String) -> (a: Self)
        ensures
            a.mode == AppMode::Normal,
            a.buffer.text() == seq![Seq::<char>::empty()],
            a.buffer.stored_text() is None,
            !a.buffer.modified,
            a.cursor_x == 0 && a.cursor_y == 0 && a.row_offset == 0,
            a.file_path is None,
            a.config == default_config(),
            a.command_input@ == Seq::<char>::empty(),
            a.highlighter.language() is None,
            a.highlighter.grammars() == GrammarSet::plain(),
            a.status_message is None,
            a.pending_confirm_action is None,
            a.pending_cmd is None,
            a.yank_register is None,
            a.file_list@.len() == 0,
            a.file_list_selected == 0 && a.file_tree_offset == 0,
            a.show_file_tree,
            a.current_dir@ == current_dir@,
            a.editor_viewport_height == 0 && a.file_viewport_height == 0,
            a.history@ == (History { undo: Seq::empty(), redo: Seq::empty(), group: None }),
            a.help_scroll_offset == 0,
            !a.is_readonly,
            a.search.query@ == Seq::<char>::empty(),
            a.search.results@.len() == 0,
            a.search.current_match_idx == 0,
    {
        Self {
            mode: AppMode::Normal,
            buffer: Buffer::new(),
            cursor_x: 0,
            cursor_y: 0,
            row_offset: 0,
            file_path: None,
            config: Config::default_settings(),
            command_input: empty_string(),
            highlighter: Highlighter::new(),
            status_message: None,
            pending_confirm_action: None,
            pending_cmd: None,
            yank_register: None,
            file_list: Vec::new(),
            file_list_selected: 0,
            file_tree_offset: 0,
            show_file_tree: true,
            current_dir,
            editor_viewport_height: 0,
            file_viewport_height: 0,
            history: HistoryManager::new(),
            help_scroll_offset: 0,
            is_readonly: false,
            search: SearchState::new(),
        }
    }

    /// Takes the listing of `target_dir` (`None` when it could not be read):
    /// the list becomes the parent directory, if any, then the entries in
    /// path order. The selection and scroll go back to the top either way.
    pub fn update_file_list(&mut self, target_dir: String, entries: Option<Vec<FileEntry>>)
        ensures
            final(self).file_list_selected == 0,
            final(self).file_tree_offset == 0,
            entries is None ==> *final(self) == (App {
                file_list_selected: 0,
                file_tree_offset: 0,
                ..*old(self)
            }),
            entries matches Some(es) ==> {
                let parent = match spec_path_parent(target_dir@) {
                    Some(p) => seq![p],
                    None => Seq::<Seq<char>>::empty(),
                };
                &&& final(self).current_dir@ == target_dir@
                &&& exists|sorted: Seq<FileEntry>|
                    #![trigger entry_paths(sorted)]
                    sorted.to_multiset() == es@.to_multiset() && entries_sorted(sorted, false)
                        && lines_view(final(self).file_list@) == parent + entry_paths(sorted)
                &&& *final(self) == (App {
                    current_dir: final(self).current_dir,
                    file_list: final(self).file_list,
                    file_list_selected: 0,
                    file_tree_offset: 0,
                    ..*old(self)
                })
            },
    {
        match entries {
            Some(es) => {
                let parent = path_parent(target_dir.as_str());
                self.current_dir = target_dir;
                let mut list: Vec<String> = Vec::new();
                let ghost pv = match opt_chars(parent) {
                    Some(p) => seq![p],
                    None => Seq::<Seq<char>>::empty(),
                };
                match parent {
                    Some(p) => list.push(p),
                    None => {},
                }
                proof {
                    assert(lines_view(list@) =~= pv);
                }
                let sorted = sort_entries(es, false);
                let ghost sv = sorted@;
                let mut files = paths_of(sorted);
                let ghost fv = lines_view(files@);
                list.append(&mut files);
                proof {
                    assert(fv == entry_paths(sv));
                    assert(lines_view(list@) =~= pv + entry_paths(sv));
                }
                self.file_list = list;
            },
            None => {},
        }
        self.file_list_selected = 0;
        self.file_tree_offset = 0;
    }

    /// Moves the tree selection down one entry, if not on the last.
    pub fn file_tree_next(&mut self)
        ensures
            *final(self) == old(self).tree_next(),
    {
        let last = if self.file_list.len() == 0 { 0 } else { self.file_list.len() - 1 };
        if self.file_list_selected < last {
            self.file_list_selected = self.file_list_selected + 1;
            self.scroll_tree();
        }
    }

    /// Moves the tree selection up one entry, if not on the first.
    pub fn file_tree_prev(&mut self)
        ensures
            *final(self) == old(self).tree_prev(),
    {
        if self.file_list_selected > 0 {
            self.file_list_selected = self.file_list_selected - 1;
            self.scroll_tree();
        }
    }

    /// Asks for the listing of the directory above the current one.
    pub fn file_tree_parent(&mut self) -> (e: Effect)
        ensures
            *final(self) == *old(self),
            tree_parent_effect(*old(self), e),
    {
        match path_parent(self.current_dir.as_str()) {
            Some(parent_path) => Effect::ListDir(parent_path),
            None => Effect::Done,
        }
    }

    /// Asks whether the selected tree entry is a directory.
    pub fn file_tree_select(&mut self) -> (e: Effect)
        ensures
            *final(self) == *old(self),
            tree_select_effect(*old(self), e),
    {
        if self.file_list_selected < self.file_list.len() {
            Effect::SelectTreeEntry(self.file_list[self.file_list_selected].clone())
        } else {
            Effect::Done
        }
    }

    /// Acts on the selected tree entry once it is known whether it is a
    /// directory: a directory is listed; a file is opened, after a
    /// confirmation when the buffer is modified.
    pub fn file_tree_select_resolved(&mut self, path: String, is_dir: bool) -> (e: Effect)
        ensures
            is_dir ==> *final(self) == *old(self) && (e matches Effect::ListDir(d) && d@ == path@),
            !is_dir && old(self).buffer.modified ==> e is Done && confirm_requested(
                *old(self),
                *final(self),
                "Discord unsaved changes?"@,
            ) && (final(self).pending_confirm_action matches Some(ConfirmAction::OpenFile(p)) && p@ == path@),
            !is_dir && !old(self).buffer.modified ==> {
                &&& (e matches Effect::Open(p) && p@ == path@)
                &&& (final(self).status_message matches Some(m) && m@ == "File opend"@)
                &&& *final(self) == (App {
                    mode: AppMode::Normal,
                    status_message: final(self).status_message,
                    ..*old(self)
                })
            },
    {
        if is_dir {
            Effect::ListDir(path)
        } else if self.is_buffer_modified() {
            self.request_confirm("Discord unsaved changes?", ConfirmAction::OpenFile(path));
            Effect::Done
        } else {
            self.mode = AppMode::Normal;
            self.status_message = Some("File opend".to_owned());
            Effect::Open(path)
        }
    }

    /// Scrolls the tree so that the selection is inside its pane.
    pub fn scroll_tree(&mut self)
        ensures
            *final(self) == (App {
                file_tree_offset: scrolled_offset(
                    old(self).file_list_selected,
                    old(self).file_tree_offset,
                    old(self).file_viewport_height as usize,
                ),
                ..*old(self)
            }),
    {
        let height = self.file_viewport_height as usize;
        self.file_tree_offset = scroll_offset(self.file_list_selected, self.file_tree_offset, height);
    }

    /// Starts editing `path`, read as `loaded` (`None` when it could not be
    /// read, which keeps the empty buffer); the language follows the
    /// extension.
    pub fn with_file(self, path: String, loaded: Option<Vec<String>>) -> (a: Self)
        ensures
            a.file_path matches Some(p) && p@ == path@,
            loaded matches Some(ls) ==> {
                &&& a.buffer.text() == (if ls@.len() == 0 {
                    seq![Seq::<char>::empty()]
                } else {
                    lines_view(ls@)
                })
                &&& a.buffer.stored_text() == Some(join_with_newlines(a.buffer.text()))
                &&& !a.buffer.modified
                &&& language_follows(self.highlighter, a.highlighter, path@)
                &&& a == (App { buffer: a.buffer, highlighter: a.highlighter, file_path: a.file_path, ..self })
            },
            loaded is None ==> a == (App { file_path: a.file_path, ..self }),
    {
        let mut app = self;
        match loaded {
            Some(lines) => {
                app.buffer = Buffer::from_lines(lines);
                match path_extension(path.as_str()) {
                    Some(ext) => app.highlighter.set_language_by_extension(ext.as_str()),
                    None => {},
                }
                app.file_path = Some(path);
            },
            None => {
                app.file_path = Some(path);
            },
        }
        app
    }

    /// Records the outcome of writing the buffer to the file path: on success
    /// the buffer is saved (`mark_saved`) and the message names the file, on
    /// failure it gives the error. The language follows the extension.
    pub fn finish_save(&mut self, result: Result<(), String>)
        requires
            old(self).file_path is Some,
        ensures
            ({
                let path = old(self).file_path->0@;
                &&& language_follows(old(self).highlighter, final(self).highlighter, path)
                &&& match result {
                    Ok(_) => {
                        &&& final(self).buffer.text() == old(self).buffer.text()
                        &&& final(self).buffer.stored_text() == Some(join_with_newlines(old(self).buffer.text()))
                        &&& !final(self).buffer.modified
                        &&& (final(self).status_message matches Some(m) && m@ == "Written to "@ + spec_debug_quoted(path))
                    },
                    Err(e) => {
                        &&& final(self).buffer == old(self).buffer
                        &&& (final(self).status_message matches Some(m) && m@ == "Error saving: "@ + e@)
                    },
                }
                &&& *final(self) == (App {
                    buffer: final(self).buffer,
                    highlighter: final(self).highlighter,
                    status_message: final(self).status_message,
                    ..*old(self)
                })
            }),
    {
        let path = match &self.file_path {
            Some(p) => p.clone(),
            None => empty_string(),
        };
        match result {
            Ok(_) => {
                self.buffer.mark_saved();
                let q = debug_quoted(path.as_str());
                self.status_message = Some(concatenated("Written to ", q.as_str()));
            },
            Err(e) => {
                self.status_message = Some(concatenated("Error saving: ", e.as_str()));
            },
        }
        match path_extension(path.as_str()) {
            Some(ext) => self.highlighter.set_language_by_extension(ext.as_str()),
            None => {},
        }
    }

    /// Whether the file being edited is the configuration file, given the
    /// canonical forms of its path and of the configuration file's path
    /// (`None` where a path does not resolve): there is a file, and the two
    /// canonical forms agree, resolved or not.
    pub fn is_config_file(&self, canonical_file: Option<String>, canonical_config: Option<String>) -> (r: bool)
        ensures
            r == (self.file_path is Some && opt_chars(canonical_file) == opt_chars(canonical_config)),
    {
        if self.file_path.is_none() {
            return false;
        }
        match (canonical_file, canonical_config) {
            (Some(a), Some(b)) => str_eq(a.as_str(), b.as_str()),
            (None, None) => true,
            _ => false,
        }
    }

    /// Takes the settings read back from the configuration file, or the
    /// error that reading them gave.
    pub fn apply_config(&mut self, result: Result<Config, String>)
        ensures
            match result {
                Ok(c) => {
                    &&& (final(self).status_message matches Some(m) && m@ == "Config reloaded and applied!"@)
                    &&& *final(self) == (App { config: c, status_message: final(self).status_message, ..*old(self) })
                },
                Err(e) => {
                    &&& (final(self).status_message matches Some(m) && m@ == "Config Error: "@ + e@)
                    &&& *final(self) == (App { status_message: final(self).status_message, ..*old(self) })
                },
            },
    {
        match result {
            Ok(new_config) => {
                self.config = new_config;
                self.status_message = Some("Config reloaded and applied!".to_owned());
            },
            Err(e) => {
                self.status_message = Some(concatenated("Config Error: ", e.as_str()));
            },
        }
    }

    /// Opens the configuration file at `path` (which `exists` or not),
    /// unless the buffer has unsaved changes.
    pub fn open_config(&mut self, path: String, exists: bool) -> (e: Effect)
        ensures
            *final(self) == (App { status_message: final(self).status_message, ..*old(self) }),
            old(self).buffer.modified ==> e is Done && (final(self).status_message matches Some(m)
                && m@ == "Save current changes first!"@),
            !old(self).buffer.modified && exists ==> (e matches Effect::Open(p) && p@ == path@) && (
            final(self).status_message matches Some(m) && m@ == "Editing config.toml"@),
            !old(self).buffer.modified && !exists ==> e is Done && (final(self).status_message matches Some(
                m,
            ) && m@ == "config.toml not found, Create it first?"@),
    {
        if self.is_buffer_modified() {
            self.status_message = Some("Save current changes first!".to_owned());
            return Effect::Done;
        }
        if exists {
            self.status_message = Some("Editing config.toml".to_owned());
            Effect::Open(path)
        } else {
            self.status_message = Some("config.toml not found, Create it first?".to_owned());
            Effect::Done
        }
    }

    /// Shows the help from its top.
    pub fn show_help(&mut self)
        ensures
            help_shown(*old(self), *final(self)),
    {
        self.mode = AppMode::Help;
        self.help_scroll_offset = 0;
        self.status_message = Some("Help Mode: Press Esc or q to close".to_owned());
    }

    /// Asks a yes/no question before `action`.
    pub fn request_confirm(&mut self, message: &str, action: ConfirmAction)
        ensures
            confirm_requested(*old(self), *final(self), message@),
            final(self).pending_confirm_action == Some(action),
    {
        self.status_message = Some(concatenated(message, " (y/n): "));
        self.pending_confirm_action = Some(action);
        self.mode = AppMode::Confirm;
    }

    /// Carries out the confirmed action: quit, open a file (asked for as an
    /// effect), or close the file.
    pub fn confirm_action(&mut self) -> (e: Effect)
        ensures
            confirmed(*old(self), *final(self), e),
    {
        match self.pending_confirm_action.take() {
            Some(action) => {
                let e = match action {
                    ConfirmAction::Quit => {
                        self.mode = AppMode::Quit;
                        Effect::Done
                    },
                    ConfirmAction::OpenFile(path) => {
                        self.mode = AppMode::Normal;
                        Effect::Open(path)
                    },
                    ConfirmAction::CloseFile => {
                        self.buffer = Buffer::new();
                        self.file_path = None;
                        self.cursor_y = 0;
                        self.cursor_x = 0;
                        self.mode = AppMode::Normal;
                        Effect::Done
                    },
                };
                self.status_message = None;
                e
            },
            None => Effect::Done,
        }
    }

    /// Drops the pending question.
    pub fn cancel_confirm(&mut self)
        ensures
            canceled(*old(self), *final(self)),
    {
        self.pending_confirm_action = None;
        self.status_message = Some("Canceled".to_owned());
        self.mode = AppMode::Normal;
    }

    /// Starts editing `path`, read as `loaded` (`None` when it could not be
    /// read, which changes nothing); the file path is its canonical form
    /// when known. Cursor, scroll and history start afresh.
    pub fn open(&mut self, path: String, loaded: Option<Vec<String>>, canonical: Option<String>)
        ensures
            loaded is None ==> *final(self) == *old(self),
            loaded matches Some(ls) ==> {
                let fp = match canonical {
                    Some(c) => c@,
                    None => path@,
                };
                &&& final(self).buffer.text() == (if ls@.len() == 0 {
                    seq![Seq::<char>::empty()]
                } else {
                    lines_view(ls@)
                })
                &&& final(self).buffer.stored_text() == Some(join_with_newlines(final(self).buffer.text()))
                &&& !final(self).buffer.modified
                &&& (final(self).file_path matches Some(p) && p@ == fp)
                &&& language_follows(old(self).highlighter, final(self).highlighter, fp)
                &&& final(self).history@ == (History { undo: Seq::empty(), redo: Seq::empty(), group: None })
                &&& *final(self) == (App {
                    buffer: final(self).buffer,
                    file_path: final(self).file_path,
                    highlighter: final(self).highlighter,
                    history: final(self).history,
                    cursor_x: 0,
                    cursor_y: 0,
                    row_offset: 0,
                    ..*old(self)
                })
            },
    {
        match loaded {
            Some(lines) => {
                self.buffer = Buffer::from_lines(lines);
                let file_path = match canonical {
                    Some(c) => c,
                    None => path,
                };
                match path_extension(file_path.as_str()) {
                    Some(ext) => self.highlighter.set_language_by_extension(ext.as_str()),
                    None => {},
                }
                self.file_path = Some(file_path);
                self.cursor_x = 0;
                self.cursor_y = 0;
                self.row_offset = 0;
                self.history.clear();
            },
            None => {},
        }
    }

    /// Closes the file: an empty buffer, no path, no highlighting.
    pub fn execute_close_file(&mut self)
        ensures
            closed_file(*old(self), *final(self)),
    {
        self.buffer = Buffer::new();
        self.file_path = None;
        self.cursor_x = 0;
        self.cursor_y = 0;
        self.row_offset = 0;
        self.highlighter = Highlighter::with_grammars(self.highlighter.enabled_grammars());
        self.status_message = Some("File closed".to_owned());
    }

    /// Closes the file, after a confirmation when it has unsaved changes.
    pub fn close_file(&mut self)
        ensures
            close_asked(*old(self), *final(self)),
    {
        if self.is_buffer_modified() {
            self.request_confirm("Discord unsaved changes?", ConfirmAction::CloseFile);
        } else {
            self.execute_close_file();
        }
    }

    /// Whether the buffer has changes not yet saved.
    pub fn is_buffer_modified(&self) -> (r: bool)
        ensures
            r == self.buffer.modified,
    {
        self.buffer.modified
    }

    /// Forgets a half-typed command prefix.
    pub fn clear_pending(&mut self)
        ensures
            *final(self) == (App { pending_cmd: None, ..*old(self) }),
    {
        self.pending_cmd = None;
    }

    /// Finds every occurrence of the search query and starts at the first.
    pub fn execute_search(&mut self)
        ensures
            searched(*old(self), *final(self)),
    {
        let results = find_matches(&self.buffer.lines, &self.search.query);
        self.search.results = results;
        self.search.current_match_idx = 0;
    }

    /// Moves the cursor to the current search result, if there is one.
    pub fn jump_to_current_search_result(&mut self)
        ensures
            *final(self) == old(self).at_search_result(),
    {
        if self.search.current_match_idx < self.search.results.len() {
            let r = self.search.results[self.search.current_match_idx];
            self.cursor_y = r.line_idx;
            self.cursor_x = r.char_idx;
        }
    }
}

/// `b` is `a` after a yes/no question about `message` was asked.
pub open spec fn confirm_requested(a: App, b: App, message: Seq<char>) -> bool {
    &&& (b.status_message matches Some(m) && m@ == message + " (y/n): "@)
    &&& b.pending_confirm_action is Some
    &&& b == App {
        status_message: b.status_message,
        pending_confirm_action: b.pending_confirm_action,
        mode: AppMode::Confirm,
        ..a
    }
}

/// `b` is `a` after the file was closed.
pub open spec fn closed_file(a: App, b: App) -> bool {
    &&& b.buffer.text() == seq![Seq::<char>::empty()]
    &&& b.buffer.stored_text() is None
    &&& !b.buffer.modified
    &&& b.highlighter.language() is None
    &&& b.highlighter.grammars() == a.highlighter.grammars()
    &&& (b.status_message matches Some(m) && m@ == "File closed"@)
    &&& b == App {
        buffer: b.buffer,
        highlighter: b.highlighter,
        status_message: b.status_message,
        file_path: None,
        cursor_x: 0,
        cursor_y: 0,
        row_offset: 0,
        ..a
    }
}

/// Moving the tree selection up from any entry but the first selects the
/// entry just above it, and on the first entry nothing changes; moving it
/// down selects the entry just below, and on the last nothing changes; only
/// the selection and the scroll offset change. Moving down from an entry
/// that has one below, then up, comes back to it.
pub proof fn law_tree_moves_by_one(a: App)
    ensures
        a.file_list_selected > 0 ==> a.tree_prev().file_list_selected == a.file_list_selected - 1,
        a.file_list_selected == 0 ==> a.tree_prev() == a,
        a.file_list_selected + 1 < a.file_list@.len() ==> a.tree_next().file_list_selected
            == a.file_list_selected + 1,
        a.file_list_selected + 1 >= a.file_list@.len() ==> a.tree_next() == a,
        a.tree_prev() == (App {
            file_list_selected: a.tree_prev().file_list_selected,
            file_tree_offset: a.tree_prev().file_tree_offset,
            ..a
        }),
        a.file_list_selected + 1 < a.file_list@.len() ==> a.tree_next().tree_prev().file_list_selected
            == a.file_list_selected,
{
    assert(a.file_list.len() == a.file_list@.len());
}

/// Moving the tree selection up or down keeps it on an entry of the list.
pub proof fn law_tree_moves_stay_in_list(a: App)
    requires
        a.file_list_selected < a.file_list@.len(),
    ensures
        a.tree_next().file_list_selected < a.tree_next().file_list@.len(),
        a.tree_prev().file_list_selected < a.tree_prev().file_list@.len(),
{
}

} // verus!
