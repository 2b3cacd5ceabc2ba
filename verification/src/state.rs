//! Daemon runtime states.

use vstd::prelude::*;

use crate::ids::SessionId;

verus! {

/// Pure metadata for an active recording.
#[derive(Clone, Copy, Debug, PartialEq, Eq, Hash)]
pub struct RecordingState {
    pub session_id: SessionId,
}

/// Pure metadata for a processing cycle.
#[derive(Clone, Copy, Debug, PartialEq, Eq, Hash)]
pub struct ProcessingState {
    pub session_id: SessionId,
}

/// Pure metadata for the clipboard/paste phase.
#[derive(Clone, Copy, Debug, PartialEq, Eq, Hash)]
pub struct PastingState {
    pub session_id: SessionId,
    pub text_len: usize,
}

/// High-level daemon runtime state.
#[derive(Clone, Copy, Debug, PartialEq, Eq, Hash)]
pub enum AppState {
    Idle,
    Recording(RecordingState),
    Processing(ProcessingState),
    Pasting(PastingState),
    ShuttingDown,
}

/// User-visible state categories.
#[derive(Clone, Copy, Debug, PartialEq, Eq, Hash, Structural)]
pub enum AppStateKind {
    Idle,
    Recording,
    Processing,
    Pasting,
    ShuttingDown,
}

/// The coarse kind of a state.
pub open spec fn kind_of(state: AppState) -> AppStateKind {
    match state {
        AppState::Idle => AppStateKind::Idle,
        AppState::Recording(_) => AppStateKind::Recording,
        AppState::Processing(_) => AppStateKind::Processing,
        AppState::Pasting(_) => AppStateKind::Pasting,
        AppState::ShuttingDown => AppStateKind::ShuttingDown,
    }
}

impl AppState {
    /// Returns the coarse state kind used by status reporting.
    pub fn kind(&self) -> (k: AppStateKind)
        ensures
            k == kind_of(*self),
    {
        match self {
            AppState::Idle => AppStateKind::Idle,
            AppState::Recording(_) => AppStateKind::Recording,
            AppState::Processing(_) => AppStateKind::Processing,
            AppState::Pasting(_) => AppStateKind::Pasting,
            AppState::ShuttingDown => AppStateKind::ShuttingDown,
        }
    }
}

} // verus!
