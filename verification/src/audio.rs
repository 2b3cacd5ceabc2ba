//! Audio formats, recording parameters and captured recordings.

use vstd::prelude::*;

use crate::ids::SessionId;

verus! {

/// Supported on-disk audio formats for captured recordings.
#[derive(Clone, Copy, Debug, PartialEq, Eq, Hash, Structural)]
pub enum AudioFormat {
    Wav,
    Flac,
}

/// The file extension of a format.
pub open spec fn format_extension(format: AudioFormat) -> &'static str {
    match format {
        AudioFormat::Wav => "wav",
        AudioFormat::Flac => "flac",
    }
}

impl AudioFormat {
    /// Returns the file extension associated with the format.
    pub fn extension(self) -> (ext: &'static str)
        ensures
            ext == format_extension(self),
    {
        match self {
            AudioFormat::Wav => "wav",
            AudioFormat::Flac => "flac",
        }
    }
}

/// Recording parameters used by the audio capture backend.
#[derive(Clone, Copy, Debug, PartialEq, Eq)]
pub struct RecordSpec {
    pub sample_rate_hz: u32,
    pub channels: u16,
    pub format: AudioFormat,
    pub max_duration_sec: u32,
}

/// Audio file produced by a completed capture session; `path` is the UTF-8
/// path of the file.
#[derive(Clone, Debug, PartialEq, Eq)]
pub struct CapturedAudio {
    pub session_id: SessionId,
    pub path: String,
    pub duration_ms: u64,
    pub sample_rate_hz: u32,
    pub channels: u16,
}

/// A copy of `a` whose `path` holds the same characters.
pub fn copy_captured(a: &CapturedAudio) -> (b: CapturedAudio)
    ensures
        b.session_id == a.session_id,
        b.path@ == a.path@,
        b.duration_ms == a.duration_ms,
        b.sample_rate_hz == a.sample_rate_hz,
        b.channels == a.channels,
{
    CapturedAudio {
        session_id: a.session_id,
        path: crate::text::owned(a.path.as_str()),
        duration_ms: a.duration_ms,
        sample_rate_hz: a.sample_rate_hz,
        channels: a.channels,
    }
}

} // verus!
