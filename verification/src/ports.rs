//! Plain values exchanged with the daemon's adapters, and the adapters that
//! do nothing.

use vstd::prelude::*;

use crate::error::AppError;
use crate::text::owned;

verus! {

/// A single clipboard payload captured before Glossa overwrites the clipboard.
#[derive(Clone, Debug, PartialEq, Eq)]
pub struct ClipboardSnapshot {
    pub mime_type: String,
    pub bytes: Vec<u8>,
}

impl ClipboardSnapshot {
    /// A payload of the given MIME type.
    pub fn new(mime_type: String, bytes: Vec<u8>) -> (s: ClipboardSnapshot)
        ensures
            s.mime_type == mime_type,
            s.bytes == bytes,
    {
        ClipboardSnapshot { mime_type, bytes }
    }
}

/// Tray UI state reflected to the user.
#[derive(Clone, Copy, Debug, PartialEq, Eq, Hash, Structural)]
pub enum TrayState {
    Idle,
    Recording,
    Processing,
}

/// No-op tray used when the environment does not support a tray.
#[derive(Clone, Copy, Debug, Default, PartialEq, Eq)]
pub struct NullTrayPort;

impl NullTrayPort {
    /// Accepts every state change.
    pub fn set_state(&self, _state: TrayState) -> (r: Result<(), AppError>)
        ensures
            r is Ok,
    {
        Ok(())
    }

    /// Accepts every error report.
    pub fn show_error(&self, _message: &str) -> (r: Result<(), AppError>)
        ensures
            r is Ok,
    {
        Ok(())
    }
}

/// No-op enhancer that returns text unchanged.
#[derive(Clone, Copy, Debug, PartialEq, Eq)]
pub struct NoopTextEnhancer;

impl NoopTextEnhancer {
    /// The enhancer's name, `noop`.
    pub fn name(&self) -> (n: &'static str)
        ensures
            n@ == "noop"@,
    {
        "noop"
    }

    /// Returns the text unchanged.
    pub fn enhance(&self, text: &str) -> (r: Result<String, AppError>)
        ensures
            r matches Ok(s) && s@ == text@,
    {
        Ok(owned(text))
    }
}

} // verus!
