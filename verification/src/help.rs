//! The help pages shown in help mode.
use vstd::prelude::*;
use crate::app::App;
use crate::config::KeyBindMode;
use crate::text::{strings_view};

verus! {

/// The help page for the Vim bindings.
pub const VIM_HELP: &'static str = "Kuu - Vim key bindings

Normal mode
  h j k l / arrows   move the cursor
  w / b              next / previous word
  0 / $              start / end of the line
  gg                 go to the first line
  zz                 center the cursor line
  Ctrl-d / Ctrl-u    half a page down / up
  i / a              insert before / after the cursor
  o / O              open a line below / above
  x                  delete the character under the cursor
  r<char>            replace the character under the cursor
  dd / yy / cc       delete / yank / change the line
  D / C              cut / change to the end of the line
  p / P              paste below / above
  >> / <<            indent / unindent the line
  u / Ctrl-r         undo / redo
  /                  search
  :                  command line
  Ctrl-t             file tree

Commands
  :w [path]          write the file
  :q / :q!           quit / quit without saving
  :wq                write and quit
  :e <path>          open a file
  :close             close the file
  :t                 toggle the file tree
  :config            edit the settings
  :chkey             switch to the Emacs bindings
  :help              this page

Help: j / k scroll, q or Esc close
";

/// The help page for the Emacs bindings.
pub const EMACS_HELP: &'static str = "Kuu - Emacs key bindings

Moving
  C-f / C-b          forward / backward one character
  C-n / C-p          next / previous line
  M-f / M-b          forward / backward one word
  C-a / C-e          start / end of the line
  M-< / M->          start / end of the file
  C-v / M-v          half a page down / up
  C-l                center the cursor line

Editing
  C-d                delete the character under the cursor
  C-k                kill to the end of the line
  C-y                yank (paste)
  C-o                open a line
  C-/ / C-_          undo / redo
  C-s                search

Files
  C-x C-f            find a file
  C-x C-s            save the file
  C-x C-k            close the file
  C-x C-d            file tree
  C-x u              undo
  C-x C-c / C-g      quit
  M-x                command (quit, kill-buffer, find-file,
                     save-buffer, chkey, help)

Help: n / p scroll, q, Esc or C-g close
";

/// The help page for a set of key bindings.
pub open spec fn help_text(mode: KeyBindMode) -> Seq<char> {
    match mode {
        KeyBindMode::Vim => VIM_HELP@,
        KeyBindMode::Emacs => EMACS_HELP@,
    }
}

/// The end of the line of `s` that starts at `i`: the next `'\n'`, or the
/// end of `s`.
pub open spec fn line_end(s: Seq<char>, i: int) -> int
    decreases s.len() - i,
{
    if i < 0 || i >= s.len() || s[i] == '\n' {
        i
    } else {
        line_end(s, i + 1)
    }
}

pub proof fn lemma_line_end(s: Seq<char>, i: int)
    requires
        0 <= i,
    ensures
        i <= line_end(s, i),
        i <= s.len() ==> line_end(s, i) <= s.len(),
        line_end(s, i) < s.len() ==> s[line_end(s, i)] == '\n',
    decreases s.len() - i,
{
    if i < s.len() && s[i] != '\n' {
        lemma_line_end(s, i + 1);
    }
}

/// A line without the `'\r'` that ends it, if any.
pub open spec fn without_cr(l: Seq<char>) -> Seq<char> {
    if l.len() > 0 && l.last() == '\r' {
        l.drop_last()
    } else {
        l
    }
}

/// The lines of `s` from position `i` on, as `str::lines` yields them: split
/// at each `'\n'`, a final `'\r'` dropped from each, and no empty line after
/// a final `'\n'`.
pub open spec fn lines_from(s: Seq<char>, i: int) -> Seq<Seq<char>>
    decreases s.len() - i,
{
    if i < 0 || i >= s.len() {
        Seq::empty()
    } else {
        let j = line_end(s, i);
        proof {
            lemma_line_end(s, i);
        }
        seq![without_cr(s.subrange(i, j))] + if j < s.len() {
            lines_from(s, j + 1)
        } else {
            Seq::empty()
        }
    }
}

/// The lines of `s`.
pub open spec fn text_lines(s: Seq<char>) -> Seq<Seq<char>> {
    lines_from(s, 0)
}

/// The lines of `s` (`str::lines`).
pub fn split_lines(s: &str) -> (r: Vec<String>)
    ensures
        strings_view(r@) == text_lines(s@),
{
    let n = s.unicode_len();
    let mut out: Vec<String> = Vec::new();
    let mut i: usize = 0;
    proof {
        assert(text_lines(s@) =~= strings_view(out@) + lines_from(s@, 0));
    }
    while i < n
        invariant
            n == s@.len(),
            i <= n,
            text_lines(s@) == strings_view(out@) + lines_from(s@, i as int),
        decreases n - i,
    {
        let start = i;
        proof {
            lemma_line_end(s@, start as int);
        }
        while i < n && s.get_char(i) != '\n'
            invariant
                n == s@.len(),
                start <= i <= n,
                line_end(s@, start as int) == line_end(s@, i as int),
            decreases n - i,
        {
            i = i + 1;
        }
        let end = if i > start && s.get_char(i - 1) == '\r' { i - 1 } else { i };
        let line = s.substring_char(start, end).to_owned();
        let ghost before = out@;
        out.push(line);
        proof {
            assert(line_end(s@, i as int) == i as int);
            assert(line@ =~= without_cr(s@.subrange(start as int, i as int)));
            assert(strings_view(out@) =~= strings_view(before).push(line@));
        }
        if i < n {
            proof {
                assert(lines_from(s@, start as int) == seq![line@] + lines_from(s@, i + 1));
                assert(strings_view(out@) + lines_from(s@, i + 1) =~= strings_view(before) + lines_from(
                    s@,
                    start as int,
                ));
            }
            i = i + 1;
        } else {
            proof {
                assert(lines_from(s@, start as int) =~= seq![line@]);
                assert(strings_view(out@) + lines_from(s@, i as int) =~= strings_view(before) + lines_from(
                    s@,
                    start as int,
                ));
            }
        }
    }
    proof {
        assert(strings_view(out@) + lines_from(s@, i as int) =~= strings_view(out@));
    }
    out
}

impl App {
    /// The lines of the help page for the active key bindings.
    pub fn get_help_content(&self) -> (r: Vec<String>)
        ensures
            strings_view(r@) == text_lines(help_text(self.config.key_bind_mode)),
    {
        let content = match self.config.key_bind_mode {
            KeyBindMode::Vim => VIM_HELP,
            KeyBindMode::Emacs => EMACS_HELP,
        };
        split_lines(content)
    }
}

} // verus!
