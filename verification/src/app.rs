//! The editor state and the operations that key bindings invoke.
use vstd::prelude::*;
use crate::buff::Buffer;
use crate::config::Config;
use crate::highlight::Highlighter;
use crate::history::HistoryManager;
use crate::search::SearchState;

verus! {

#[derive(Debug, Clone, Copy, PartialEq, Eq, Structural)]
pub enum AppMode {
    Normal,
    Insert,
    Command,
    FileTree,
    Confirm,
    Help,
    Search,
    Quit,
}

/// What a confirmation prompt does when answered yes.
#[derive(Debug)]
pub enum ConfirmAction {
    Quit,
    OpenFile(String),
    CloseFile,
}

/// Work that only the surrounding program can do (reading and writing files,
/// looking at the file system); the editor asks for it and is told the result.
#[derive(Debug)]
pub enum Effect {
    /// Nothing to do.
    Done,
    /// Read the file at this path and hand it to `App::open`.
    Open(String),
    /// List this directory and hand it to `App::update_file_list`.
    ListDir(String),
    /// Find out whether this path is a directory and tell
    /// `App::file_tree_select_resolved`.
    SelectTreeEntry(String),
    /// Write the buffer (`App::finish_save`), then reload the settings if the
    /// file is the configuration file (`App::apply_config`).
    SaveAndReload,
    /// Locate the configuration file and tell `App::open_config`.
    OpenConfig,
}

pub struct App {
    pub mode: AppMode,
    pub buffer: Buffer,
    pub cursor_x: usize,
    pub cursor_y: usize,
    pub row_offset: usize,
    pub file_path: Option<String>,
    pub config: Config,
    pub command_input: String,
    pub highlighter: Highlighter,
    pub status_message: Option<String>,
    pub pending_confirm_action: Option<ConfirmAction>,
    pub pending_cmd: Option<char>,
    pub yank_register: Option<String>,
    pub file_list: Vec<String>,
    pub file_list_selected: usize,
    pub file_tree_offset: usize,
    pub show_file_tree: bool,
    pub current_dir: String,
    pub editor_viewport_height: u16,
    pub file_viewport_height: u16,
    pub history: HistoryManager,
    pub help_scroll_offset: usize,
    pub is_readonly: bool,
    pub search: SearchState,
}

/// The last column the cursor may stand on in a line of `len` characters:
/// past the end in insert mode, on the last character otherwise.
pub open spec fn max_col(mode: AppMode, len: nat) -> nat {
    if mode == AppMode::Insert {
        len
    } else if len > 0 {
        (len - 1) as nat
    } else {
        0
    }
}

/// The cursor `(x, y)` after snapping into the text: onto the line's last
/// allowed column, or onto the last line when `y` is past the end.
pub open spec fn snapped(mode: AppMode, text: Seq<Seq<char>>, x: usize, y: usize) -> (usize, usize) {
    if y < text.len() {
        let m = max_col(mode, text[y as int].len());
        (if x > m { m as usize } else { x }, y)
    } else {
        (0, if text.len() > 0 { (text.len() - 1) as usize } else { 0 })
    }
}

impl App {
    /// The app with the cursor moved to `(x, y)`.
    pub open spec fn with_cursor(self, x: usize, y: usize) -> App {
        App { cursor_x: x, cursor_y: y, ..self }
    }

    /// One column left, if not at the start.
    pub open spec fn step_left(self) -> App {
        if self.cursor_x > 0 {
            self.with_cursor((self.cursor_x - 1) as usize, self.cursor_y)
        } else {
            self
        }
    }

    /// The app with its cursor snapped into the text.
    pub open spec fn snap(self) -> App {
        let (x, y) = snapped(self.mode, self.buffer.text(), self.cursor_x, self.cursor_y);
        self.with_cursor(x, y)
    }

    /// Moves the cursor one column left, if not at the start.
    pub fn move_cursor_left(&mut self)
        ensures
            *final(self) == old(self).step_left(),
    {
        if self.cursor_x > 0 {
            self.cursor_x = self.cursor_x - 1;
        }
    }

    /// Snaps the cursor into the text; see `snapped`.
    pub fn snap_cursor(&mut self)
        ensures
            *final(self) == old(self).snap(),
    {
        match self.buffer.line_len(self.cursor_y) {
            Some(char_count) => {
                let max_x = if matches!(self.mode, AppMode::Insert) {
                    char_count
                } else if char_count > 0 {
                    char_count - 1
                } else {
                    0
                };
                if self.cursor_x > max_x {
                    self.cursor_x = max_x;
                }
            },
            None => {
                let n = self.buffer.lines.len();
                self.cursor_y = if n > 0 { n - 1 } else { 0 };
                self.cursor_x = 0;
            },
        }
    }
}

/// Snapping puts the cursor inside a non-empty text: on an existing line,
/// and not past the last column allowed there.
pub proof fn law_snap_puts_cursor_in_text(mode: AppMode, text: Seq<Seq<char>>, x: usize, y: usize)
    requires
        0 < text.len() <= usize::MAX,
        forall|i: int| 0 <= i < text.len() ==> #[trigger] text[i].len() <= usize::MAX,
    ensures
        ({
            let (x2, y2) = snapped(mode, text, x, y);
            &&& y2 < text.len()
            &&& x2 <= max_col(mode, text[y2 as int].len())
        }),
{
}

} // verus!
