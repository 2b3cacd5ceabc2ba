//! Audio capture and processing settings.

use vstd::prelude::*;

use crate::audio::AudioFormat;
use crate::error::{reports, CoreError};
use crate::text::{is_blank_str, owned, str_eq, trim};

verus! {

/// Idle microphone stream policy used to reduce cold-start recording latency.
#[derive(Clone, Copy, Debug, PartialEq, Eq, Hash, Structural)]
pub enum LatencyMode {
    Off,
    Balanced,
    Instant,
}

/// Working directory selection for temporary recordings; written in a
/// configuration file as `"auto"` or as a path.
#[derive(Clone, Debug, PartialEq, Eq)]
pub enum WorkDir {
    Auto,
    Path(String),
}

/// Audio capture and processing settings.
#[derive(Clone, Debug, PartialEq, Eq)]
pub struct AudioConfig {
    pub enabled: bool,
    pub work_dir: WorkDir,
    pub format: AudioFormat,
    pub sample_rate_hz: u32,
    pub channels: u16,
    pub trim_silence: bool,
    pub trim_threshold: u16,
    pub min_duration_ms: u64,
    pub max_duration_sec: u32,
    pub persist_audio: bool,
    pub latency_mode: LatencyMode,
    pub keepalive_after_stop_seconds: u64,
}

/// Audio is enabled unless the configuration says otherwise.
pub fn default_audio_enabled() -> (b: bool)
    ensures
        b,
{
    true
}

/// The idle-stream policy used when the configuration names none.
pub fn default_latency_mode() -> (m: LatencyMode)
    ensures
        m == LatencyMode::Balanced,
{
    LatencyMode::Balanced
}

/// How long the idle stream stays open after a recording, when the
/// configuration does not say.
pub fn default_keepalive_after_stop_seconds() -> (s: u64)
    ensures
        s == 60,
{
    60
}

/// The first rule that an audio configuration breaks, as its message.
pub open spec fn audio_problem(c: AudioConfig) -> Option<Seq<char>> {
    if c.sample_rate_hz == 0 {
        Some("audio.sample_rate_hz must be greater than zero"@)
    } else if c.channels == 0 {
        Some("audio.channels must be greater than zero"@)
    } else if c.min_duration_ms == 0 {
        Some("audio.min_duration_ms must be greater than zero"@)
    } else if c.max_duration_sec == 0 {
        Some("audio.max_duration_sec must be greater than zero"@)
    } else if c.keepalive_after_stop_seconds == 0 {
        Some("audio.keepalive_after_stop_seconds must be greater than zero"@)
    } else if c.format == AudioFormat::Flac {
        Some("audio.format flac is not implemented yet; use wav for the MVP"@)
    } else {
        None
    }
}

/// The audio settings used when the configuration gives none.
pub open spec fn is_default_audio(c: AudioConfig) -> bool {
    &&& c.enabled
    &&& c.work_dir is Auto
    &&& c.format == AudioFormat::Wav
    &&& c.sample_rate_hz == 16000
    &&& c.channels == 1
    &&& c.trim_silence
    &&& c.trim_threshold == 500
    &&& c.min_duration_ms == 150
    &&& c.max_duration_sec == 120
    &&& !c.persist_audio
    &&& c.latency_mode == LatencyMode::Balanced
    &&& c.keepalive_after_stop_seconds == 60
}

impl Default for AudioConfig {
    fn default() -> (c: AudioConfig)
        ensures
            is_default_audio(c),
    {
        AudioConfig {
            enabled: default_audio_enabled(),
            work_dir: WorkDir::Auto,
            format: AudioFormat::Wav,
            sample_rate_hz: 16000,
            channels: 1,
            trim_silence: true,
            trim_threshold: 500,
            min_duration_ms: 150,
            max_duration_sec: 120,
            persist_audio: false,
            latency_mode: default_latency_mode(),
            keepalive_after_stop_seconds: default_keepalive_after_stop_seconds(),
        }
    }
}

impl AudioConfig {
    /// Checks the audio rules in order and reports the first one broken.
    pub fn validate(&self) -> (r: Result<(), CoreError>)
        ensures
            reports(r, audio_problem(*self)),
    {
        if self.sample_rate_hz == 0 {
            return Err(
                CoreError::InvalidConfig(owned("audio.sample_rate_hz must be greater than zero")),
            );
        }
        if self.channels == 0 {
            return Err(CoreError::InvalidConfig(owned("audio.channels must be greater than zero")));
        }
        if self.min_duration_ms == 0 {
            return Err(
                CoreError::InvalidConfig(owned("audio.min_duration_ms must be greater than zero")),
            );
        }
        if self.max_duration_sec == 0 {
            return Err(
                CoreError::InvalidConfig(owned("audio.max_duration_sec must be greater than zero")),
            );
        }
        if self.keepalive_after_stop_seconds == 0 {
            return Err(
                CoreError::InvalidConfig(
                    owned("audio.keepalive_after_stop_seconds must be greater than zero"),
                ),
            );
        }
        if let AudioFormat::Flac = self.format {
            return Err(
                CoreError::InvalidConfig(
                    owned("audio.format flac is not implemented yet; use wav for the MVP"),
                ),
            );
        }
        Ok(())
    }
}

/// `WorkDir` with its path taken as a character sequence; `None` is `Auto`.
pub open spec fn work_dir_path(w: WorkDir) -> Option<Seq<char>> {
    match w {
        WorkDir::Auto => None,
        WorkDir::Path(p) => Some(p@),
    }
}

/// How a configuration string is read as a working directory: `Err` holds
/// the message.
pub open spec fn parse_work_dir(v: Seq<char>) -> Result<Option<Seq<char>>, Seq<char>> {
    if v == "auto"@ {
        Ok(None)
    } else if trim(v).len() == 0 {
        Err("audio.work_dir must not be empty"@)
    } else {
        Ok(Some(v))
    }
}

/// How a working directory is written back into a configuration string.
pub open spec fn work_dir_text(w: Option<Seq<char>>) -> Seq<char> {
    match w {
        None => "auto"@,
        Some(p) => p,
    }
}

impl WorkDir {
    /// Reads a configuration string as a working directory.
    pub fn try_from(value: String) -> (r: Result<WorkDir, String>)
        ensures
            match parse_work_dir(value@) {
                Ok(w) => r matches Ok(x) && work_dir_path(x) == w,
                Err(m) => r matches Err(e) && e@ == m,
            },
    {
        if str_eq(value.as_str(), "auto") {
            Ok(WorkDir::Auto)
        } else if is_blank_str(value.as_str()) {
            Err(owned("audio.work_dir must not be empty"))
        } else {
            Ok(WorkDir::Path(value))
        }
    }

    /// The configuration string that reads back as this working directory.
    pub fn to_config_string(self) -> (s: String)
        ensures
            s@ == work_dir_text(work_dir_path(self)),
    {
        match self {
            WorkDir::Auto => owned("auto"),
            WorkDir::Path(path) => path,
        }
    }
}

/// Every string that reads as a working directory is written back unchanged.
pub proof fn law_work_dir_text_round_trip(v: Seq<char>)
    requires
        parse_work_dir(v) is Ok,
    ensures
        work_dir_text(parse_work_dir(v)->Ok_0) == v,
{
}

/// A working directory written into a configuration string reads back as
/// itself, unless it is a path spelled `auto`, which reads back as `Auto`.
pub proof fn law_work_dir_parse_round_trip(w: Option<Seq<char>>)
    requires
        w matches Some(p) ==> p != "auto"@ && trim(p).len() > 0,
    ensures
        parse_work_dir(work_dir_text(w)) == Ok::<Option<Seq<char>>, Seq<char>>(w),
{
}

/// An audio configuration passes exactly when every rate, count and duration
/// is positive and the format is WAV.
pub proof fn law_audio_config_valid_iff_positive_wav(c: AudioConfig)
    ensures
        audio_problem(c) is None <==> (c.sample_rate_hz > 0 && c.channels > 0 && c.min_duration_ms
            > 0 && c.max_duration_sec > 0 && c.keepalive_after_stop_seconds > 0 && c.format
            == AudioFormat::Wav),
{
}

} // verus!
