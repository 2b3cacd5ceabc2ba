//! Settings of the global shortcut input.

use vstd::prelude::*;

use crate::error::CoreError;
use crate::text::owned;

verus! {

/// Input backend used to receive global recording commands.
#[derive(Clone, Copy, Debug, PartialEq, Eq, Hash, Structural)]
pub enum InputBackend {
    Portal,
    /// No global shortcut source; commands come from the CLI and the tray only.
    Disabled,
}

/// Recording semantics for the portal shortcut backend.
#[derive(Clone, Copy, Debug, PartialEq, Eq, Hash, Structural)]
pub enum InputMode {
    Toggle,
    PushToTalk,
}

/// Portal shortcut configuration.
#[derive(Clone, Debug, PartialEq, Eq)]
pub struct InputConfig {
    pub backend: InputBackend,
    pub shortcut: String,
    pub mode: InputMode,
}

impl Default for InputConfig {
    fn default() -> (c: InputConfig)
        ensures
            c.backend == InputBackend::Portal,
            c.shortcut@ == "<Ctrl><Alt>space"@,
            c.mode == InputMode::Toggle,
    {
        InputConfig {
            backend: InputBackend::Portal,
            shortcut: owned("<Ctrl><Alt>space"),
            mode: InputMode::Toggle,
        }
    }
}

impl InputConfig {
    /// Every input configuration is accepted.
    pub fn validate(&self) -> (r: Result<(), CoreError>)
        ensures
            r is Ok,
    {
        Ok(())
    }
}

} // verus!
