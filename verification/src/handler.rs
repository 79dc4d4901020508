//! Choosing the key bindings.
use vstd::prelude::*;
use crate::app::{App, Effect};
use crate::config::KeyBindMode;
use crate::emacs::{emacs_ready, emacs_step, EmacsHandler};
use crate::keys::KeyEvent;
use crate::vim::{vim_ready, vim_step, VimHandler};

verus! {

/// The active key bindings.
pub enum KeyHandler {
    Vim(VimHandler),
    Emacs(EmacsHandler),
}

/// The handler for a set of key bindings.
pub fn get_handler(mode: KeyBindMode) -> (h: KeyHandler)
    ensures
        (h is Vim) == (mode == KeyBindMode::Vim),
{
    match mode {
        KeyBindMode::Vim => KeyHandler::Vim(VimHandler),
        KeyBindMode::Emacs => KeyHandler::Emacs(EmacsHandler),
    }
}

impl KeyHandler {
    /// `key` can be handled in the state `a` (see `vim_ready`, `emacs_ready`).
    pub open spec fn ready(self, a: App, key: KeyEvent) -> bool {
        match self {
            KeyHandler::Vim(_) => vim_ready(a, key),
            KeyHandler::Emacs(_) => emacs_ready(a, key),
        }
    }

    /// `b` is `a` after `key`, which asked for `e` (see `vim_step`,
    /// `emacs_step`).
    pub open spec fn step(self, a: App, key: KeyEvent, b: App, e: Effect) -> bool {
        match self {
            KeyHandler::Vim(_) => vim_step(a, key, b, e),
            KeyHandler::Emacs(_) => emacs_step(a, key, b, e),
        }
    }

    /// Handles one key press with these bindings.
    pub fn handle_key(&self, key: KeyEvent, app: &mut App) -> (e: Effect)
        requires
            self.ready(*old(app), key),
        ensures
            self.step(*old(app), key, *final(app), e),
    {
        match self {
            KeyHandler::Vim(h) => h.handle_key(key, app),
            KeyHandler::Emacs(h) => h.handle_key(key, app),
        }
    }
}

} // verus!
