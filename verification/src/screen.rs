//! Where things go on the screen: the cursor's column and the names in the
//! file tree.
use vstd::prelude::*;
use crate::app::{App, AppMode};
use crate::config::KeyBindMode;
use crate::highlight::grammar_name;
use crate::paths::{opt_chars, path_parent, spec_path_parent};
use crate::text::{char_count, char_slice, concatenated, decimal, decimal_text, str_eq, string_push};
use unicode_width::UnicodeWidthStr;

verus! {

/// The number of terminal columns that `s` takes, as `unicode-width`
/// measures it (East Asian wide characters take two, combining marks none);
/// the tables take pages, so the result is only named.
pub uninterp spec fn spec_str_width(s: Seq<char>) -> usize;

/// Calls `UnicodeWidthStr::width` of the `unicode-width` crate on `s`; its
/// result depends on `s` alone and is named `spec_str_width`.
#[verifier::external_body]
pub(crate) fn str_width(s: &str) -> (r: usize)
    ensures
        r == spec_str_width(s@),
{
    UnicodeWidthStr::width(s)
}

/// The screen column of the cursor on `line`: the width of the characters
/// before column `x` (all of them when `x` is past the end).
pub fn cursor_column(line: &String, x: usize) -> (r: usize)
    ensures
        r == spec_str_width(line@.take(if x < line@.len() { x as int } else { line@.len() as int })),
{
    let n = char_count(line);
    let k = if x < n { x } else { n };
    let prefix = char_slice(line, 0, k);
    proof {
        assert(prefix@ =~= line@.take(k as int));
    }
    str_width(prefix.as_str())
}

/// What `Path::file_name` gives for a path: its last component, unless that
/// is `..` or there is none.
pub uninterp spec fn spec_path_file_name(p: Seq<char>) -> Option<Seq<char>>;

/// Calls `std::path::Path::file_name` on the path `p`.
#[verifier::external_body]
pub(crate) fn path_file_name(p: &str) -> (r: Option<String>)
    ensures
        opt_chars(r) == spec_path_file_name(p@),
{
    std::path::Path::new(p).file_name().map(|n| n.to_string_lossy().into_owned())
}

/// The name the file tree shows for `path` while listing `current_dir`:
/// `..` for the directory above, else the file name, or `?` without one.
pub open spec fn entry_name(current_dir: Seq<char>, path: Seq<char>) -> Seq<char> {
    if spec_path_parent(current_dir) == Some(path) {
        ".."@
    } else {
        match spec_path_file_name(path) {
            Some(n) => n,
            None => "?"@,
        }
    }
}

/// Computes `entry_name`.
pub fn tree_entry_name(current_dir: &str, path: &str) -> (r: String)
    ensures
        r@ == entry_name(current_dir@, path@),
{
    let is_parent = match path_parent(current_dir) {
        Some(p) => str_eq(p.as_str(), path),
        None => false,
    };
    if is_parent {
        "..".to_owned()
    } else {
        match path_file_name(path) {
            Some(n) => n,
            None => "?".to_owned(),
        }
    }
}

/// `s` with spaces in front, to be `width` characters wide at least.
pub open spec fn padded(s: Seq<char>, width: nat) -> Seq<char> {
    if s.len() < width {
        Seq::new((width - s.len()) as nat, |i: int| ' ') + s
    } else {
        s
    }
}

/// The gutter label of editor row `row` of a text of `n_lines` lines: its
/// line number right-aligned in three columns and a space, or `~` below the
/// text.
pub open spec fn line_label(row: usize, n_lines: usize) -> Seq<char> {
    if row < n_lines {
        padded(decimal_text((row + 1) as nat), 3) + " \n"@
    } else {
        "~  "@
    }
}

/// Builds `line_label`.
pub fn line_number_label(row: usize, n_lines: usize) -> (r: String)
    ensures
        r@ == line_label(row, n_lines),
{
    if row < n_lines {
        let digits = decimal(row as u128 + 1);
        let n = char_count(&digits);
        let mut s = String::new();
        let mut k: usize = n;
        while k < 3
            invariant
                n == digits@.len(),
                n <= k <= 3 || (n > 3 && k == n),
                s@ == Seq::new((k - n) as nat, |i: int| ' '),
            decreases 3 - k,
        {
            string_push(&mut s, ' ');
            proof {
                assert(s@ =~= Seq::new((k + 1 - n) as nat, |i: int| ' '));
            }
            k = k + 1;
        }
        proof {
            if n >= 3 {
                assert(s@ =~= Seq::<char>::empty());
            }
        }
        let s = concatenated(s.as_str(), digits.as_str());
        proof {
            if n >= 3 {
                assert(s@ =~= digits@);
            }
        }
        concatenated(s.as_str(), " \n")
    } else {
        "~  ".to_owned()
    }
}

/// The name of a mode as `{:?}` prints it.
pub open spec fn mode_name(m: AppMode) -> Seq<char> {
    match m {
        AppMode::Normal => "Normal"@,
        AppMode::Insert => "Insert"@,
        AppMode::Command => "Command"@,
        AppMode::FileTree => "FileTree"@,
        AppMode::Confirm => "Confirm"@,
        AppMode::Help => "Help"@,
        AppMode::Search => "Search"@,
        AppMode::Quit => "Quit"@,
    }
}

fn mode_text(m: AppMode) -> (r: &'static str)
    ensures
        r@ == mode_name(m),
{
    match m {
        AppMode::Normal => "Normal",
        AppMode::Insert => "Insert",
        AppMode::Command => "Command",
        AppMode::FileTree => "FileTree",
        AppMode::Confirm => "Confirm",
        AppMode::Help => "Help",
        AppMode::Search => "Search",
        AppMode::Quit => "Quit",
    }
}

/// The status line: under the Vim bindings the mode, then the cursor's row
/// (counted from 1) and column, the file (`NO NAME` without one) and the
/// language (`Plain Text` without one).
pub open spec fn status_text(a: App) -> Seq<char> {
    let file = match a.file_path {
        Some(p) => p@,
        None => "NO NAME"@,
    };
    let lang = match a.highlighter.language() {
        Some(g) => grammar_name(g),
        None => "Plain Text"@,
    };
    let pos = "ROW:"@ + decimal_text((a.cursor_y + 1) as nat) + "COL:"@ + decimal_text(a.cursor_x as nat);
    if a.config.key_bind_mode == KeyBindMode::Vim {
        "["@ + mode_name(a.mode) + "]|"@ + pos + "|FILE: "@ + file + "|"@ + lang
    } else {
        pos + "|FILE:"@ + file + "|"@ + lang
    }
}

impl App {
    /// Builds `status_text`.
    pub fn status_line(&self) -> (r: String)
        ensures
            r@ == status_text(*self),
    {
        let row = decimal(self.cursor_y as u128 + 1);
        let col = decimal(self.cursor_x as u128);
        let pos = concatenated("ROW:", row.as_str());
        let pos = concatenated(pos.as_str(), "COL:");
        let pos = concatenated(pos.as_str(), col.as_str());
        let file: &str = match &self.file_path {
            Some(p) => p.as_str(),
            None => "NO NAME",
        };
        let lang = match self.highlighter.current_language_name() {
            Some(l) => l,
            None => "Plain Text",
        };
        let vim = match self.config.key_bind_mode {
            KeyBindMode::Vim => true,
            KeyBindMode::Emacs => false,
        };
        let head = if vim {
            let h = concatenated("[", mode_text(self.mode));
            let h = concatenated(h.as_str(), "]|");
            let h = concatenated(h.as_str(), pos.as_str());
            concatenated(h.as_str(), "|FILE: ")
        } else {
            concatenated(pos.as_str(), "|FILE:")
        };
        let r = concatenated(head.as_str(), file);
        let r = concatenated(r.as_str(), "|");
        concatenated(r.as_str(), lang)
    }
}

} // verus!
