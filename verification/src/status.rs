//! Status snapshots and the small enums they report.

use vstd::prelude::*;

use crate::state::AppStateKind;

verus! {

/// Configured transcription provider family.
#[derive(Clone, Copy, Debug, PartialEq, Eq, Hash, Structural)]
pub enum ProviderKind {
    Groq,
    OpenAi,
    OpenAiCompatible,
}

/// Supported paste key chords.
#[derive(Clone, Copy, Debug, PartialEq, Eq, Hash, Structural)]
pub enum PasteMode {
    CtrlV,
    CtrlShiftV,
    ShiftInsert,
}

/// Lightweight status snapshot exposed to the CLI and diagnostics.
#[derive(Clone, Copy, Debug, PartialEq, Eq, Hash, Structural)]
pub struct AppStatus {
    pub state: AppStateKind,
    pub provider: ProviderKind,
    pub tray_available: bool,
    pub portal_available: bool,
}

} // verus!
