//! Editor settings.
use vstd::prelude::*;

verus! {

/// Which key bindings are active.
#[derive(Debug, Clone, Copy, PartialEq, Eq, Structural)]
pub enum KeyBindMode {
    Vim,
    Emacs,
}

#[derive(Debug, Clone, Copy, PartialEq, Eq, Structural)]
pub struct Config {
    pub key_bind_mode: KeyBindMode,
    pub show_line_numbers: bool,
    pub tab_size: usize,
}

/// The settings used when no configuration file is read.
pub open spec fn default_config() -> Config {
    Config { key_bind_mode: KeyBindMode::Vim, show_line_numbers: true, tab_size: 4 }
}

impl Default for Config {
    fn default() -> (c: Self)
        ensures
            c == default_config(),
    {
        Self { key_bind_mode: KeyBindMode::Vim, show_line_numbers: true, tab_size: 4 }
    }
}

impl Config {
    /// The settings used when no configuration file is read.
    pub fn default_settings() -> (c: Self)
        ensures
            c == default_config(),
    {
        Self { key_bind_mode: KeyBindMode::Vim, show_line_numbers: true, tab_size: 4 }
    }

    /// The settings to start with, given what reading the configuration
    /// file gave: nothing when it is missing or cannot be read, else the
    /// settings it holds or the error they gave. Only settings that read
    /// are used; otherwise the defaults.
    pub fn load(read: Option<Result<Config, String>>) -> (c: Self)
        ensures
            c == (match read {
                Some(Ok(x)) => x,
                _ => default_config(),
            }),
    {
        match read {
            Some(Ok(x)) => x,
            _ => Self::default_settings(),
        }
    }
}

} // verus!
