//! Key presses as the editor reads them.
use vstd::prelude::*;
use crate::text::{concatenated, empty_string, string_push};

verus! {

/// The key that was pressed.
#[derive(Debug)]
pub enum KeyCode {
    Char(char),
    Enter,
    Esc,
    Backspace,
    Tab,
    Left,
    Right,
    Up,
    Down,
    /// Any other key, with the name under which the terminal library prints
    /// it.
    Other(String),
}

/// A key press with the modifier keys held down.
#[derive(Debug)]
pub struct KeyEvent {
    pub code: KeyCode,
    pub control: bool,
    pub alt: bool,
    pub shift: bool,
}

/// The name of a key as `crossterm` prints it (`Display` for `KeyCode`,
/// outside macOS): the character itself, `Space` for the space bar, the
/// key's name for the others.
pub open spec fn key_name(code: KeyCode) -> Seq<char> {
    match code {
        KeyCode::Char(c) => if c == ' ' {
            "Space"@
        } else {
            seq![c]
        },
        KeyCode::Enter => "Enter"@,
        KeyCode::Esc => "Esc"@,
        KeyCode::Backspace => "Backspace"@,
        KeyCode::Tab => "Tab"@,
        KeyCode::Left => "Left"@,
        KeyCode::Right => "Right"@,
        KeyCode::Up => "Up"@,
        KeyCode::Down => "Down"@,
        KeyCode::Other(n) => n@,
    }
}

impl KeyCode {
    /// The name of the key; see `key_name`.
    pub fn name(&self) -> (r: String)
        ensures
            r@ == key_name(*self),
    {
        match self {
            KeyCode::Char(c) => {
                if *c == ' ' {
                    "Space".to_owned()
                } else {
                    let mut s = empty_string();
                    string_push(&mut s, *c);
                    proof {
                        assert(s@ =~= seq![*c]);
                    }
                    s
                }
            },
            KeyCode::Enter => "Enter".to_owned(),
            KeyCode::Esc => "Esc".to_owned(),
            KeyCode::Backspace => "Backspace".to_owned(),
            KeyCode::Tab => "Tab".to_owned(),
            KeyCode::Left => "Left".to_owned(),
            KeyCode::Right => "Right".to_owned(),
            KeyCode::Up => "Up".to_owned(),
            KeyCode::Down => "Down".to_owned(),
            KeyCode::Other(n) => n.clone(),
        }
    }
}

/// The message for an unbound key after the prefix `C-prefix`.
pub open spec fn undefined_key_message(prefix: char, code: KeyCode) -> Seq<char> {
    "C-"@ + seq![prefix] + " "@ + key_name(code) + " is undefined"@
}

/// Builds `undefined_key_message`.
pub fn undefined_key(prefix: char, code: &KeyCode) -> (r: String)
    ensures
        r@ == undefined_key_message(prefix, *code),
{
    let mut s = "C-".to_owned();
    string_push(&mut s, prefix);
    let s = concatenated(s.as_str(), " ");
    let name = code.name();
    let s = concatenated(s.as_str(), name.as_str());
    concatenated(s.as_str(), " is undefined")
}

} // verus!
