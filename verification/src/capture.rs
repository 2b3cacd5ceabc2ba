//! Pure pieces of audio capture: sample conversion, the stream
//! configurations tried in turn, the first-input signal, the idle keepalive
//! stream's timeout bookkeeping, and the results of waiting on the device.

use vstd::prelude::*;

use crate::error::{AppError, AppErrorView};
use crate::text::{decimal, decimal_text, join_strings, joined, owned, push_str, views};

verus! {

/// Converts an unsigned 16-bit sample into signed `i16` PCM by shifting the
/// midpoint `32768` to zero.
pub fn u16_to_i16(sample: u16) -> (out: i16)
    ensures
        out as int == sample as int - 32768,
{
    (sample as i32 - 32767i32 - 1) as i16
}

/// The buffer size asked of the input device.
#[derive(Clone, Copy, Debug, PartialEq, Eq, Hash, Structural)]
pub enum BufferChoice {
    Default,
    Fixed(u32),
}

/// An input stream configuration: channels, sample rate and buffer size.
#[derive(Clone, Copy, Debug, PartialEq, Eq, Hash, Structural)]
pub struct StreamSettings {
    pub channels: u16,
    pub sample_rate_hz: u32,
    pub buffer: BufferChoice,
}

/// The buffer sizes, in frames, tried first for low latency.
pub const LOW_LATENCY_BUFFER_FRAMES_SMALL: u32 = 512;

/// The second buffer size tried for low latency.
pub const LOW_LATENCY_BUFFER_FRAMES_LARGE: u32 = 1024;

/// `base` with the given buffer size.
pub open spec fn with_buffer(base: StreamSettings, buffer: BufferChoice) -> StreamSettings {
    StreamSettings { buffer, ..base }
}

/// The configurations tried in turn when opening an input stream: the two
/// fixed low-latency buffer sizes, then the device's default buffer size.
pub fn input_config_candidates(base: &StreamSettings) -> (v: Vec<StreamSettings>)
    ensures
        v@ == seq![
            with_buffer(*base, BufferChoice::Fixed(512)),
            with_buffer(*base, BufferChoice::Fixed(1024)),
            with_buffer(*base, BufferChoice::Default),
        ],
{
    let mut candidates: Vec<StreamSettings> = Vec::new();
    candidates.push(StreamSettings { buffer: BufferChoice::Fixed(LOW_LATENCY_BUFFER_FRAMES_SMALL), ..*base });
    candidates.push(StreamSettings { buffer: BufferChoice::Fixed(LOW_LATENCY_BUFFER_FRAMES_LARGE), ..*base });
    candidates.push(StreamSettings { buffer: BufferChoice::Default, ..*base });
    assert(candidates@ =~= seq![
        with_buffer(*base, BufferChoice::Fixed(512)),
        with_buffer(*base, BufferChoice::Fixed(1024)),
        with_buffer(*base, BufferChoice::Default),
    ]);
    candidates
}

/// How a buffer size is labelled in logs and error messages.
pub open spec fn buffer_label(b: BufferChoice) -> Seq<char> {
    match b {
        BufferChoice::Default => "default"@,
        BufferChoice::Fixed(n) => decimal(n as nat),
    }
}

/// The label of a buffer size: `default`, or the number of frames.
pub fn buffer_size_label(b: BufferChoice) -> (s: String)
    ensures
        s@ == buffer_label(b),
{
    match b {
        BufferChoice::Default => owned("default"),
        BufferChoice::Fixed(n) => decimal_text(n as u128),
    }
}

/// How one failed stream configuration is reported: its rate, channels and
/// buffer, then the device's error.
pub open spec fn candidate_failure_of(config: StreamSettings, error: Seq<char>) -> Seq<char> {
    decimal(config.sample_rate_hz as nat) + " Hz/"@ + decimal(config.channels as nat) + " ch/"@
        + buffer_label(config.buffer) + " buffer: "@ + error
}

/// The report of one stream configuration that the device refused.
pub fn candidate_failure(config: &StreamSettings, error: &str) -> (s: String)
    ensures
        s@ == candidate_failure_of(*config, error@),
{
    let mut s = decimal_text(config.sample_rate_hz as u128);
    push_str(&mut s, " Hz/");
    let ch = decimal_text(config.channels as u128);
    push_str(&mut s, ch.as_str());
    push_str(&mut s, " ch/");
    let b = buffer_size_label(config.buffer);
    push_str(&mut s, b.as_str());
    push_str(&mut s, " buffer: ");
    push_str(&mut s, error);
    s
}

/// Which stream could not be opened with any configuration.
#[derive(Clone, Copy, Debug, PartialEq, Eq, Hash, Structural)]
pub enum StreamPurpose {
    /// The stream that records into the WAV writer.
    Recording,
    /// The idle stream whose input is discarded.
    Keepalive,
}

/// The error when no configuration could be opened: which stream, then
/// each configuration's failure, separated by `"; "`.
pub open spec fn preferred_failure_of(purpose: StreamPurpose, failures: Seq<Seq<char>>) -> Seq<char> {
    let head = match purpose {
        StreamPurpose::Recording => "failed to build input stream with preferred configs: "@,
        StreamPurpose::Keepalive => "failed to build input keepalive stream with preferred configs: "@,
    };
    head + joined(failures, "; "@)
}

/// The error reported when every candidate configuration failed.
pub fn preferred_stream_failure(purpose: StreamPurpose, failures: &Vec<String>) -> (s: String)
    ensures
        s@ == preferred_failure_of(purpose, views(failures@)),
{
    let mut s = match purpose {
        StreamPurpose::Recording => owned("failed to build input stream with preferred configs: "),
        StreamPurpose::Keepalive => owned(
            "failed to build input keepalive stream with preferred configs: ",
        ),
    };
    let j = join_strings(failures, "; ");
    push_str(&mut s, j.as_str());
    s
}

/// Remembers whether the first buffer of input has been signalled, so that
/// readiness is reported once per stream.
#[derive(Clone, Copy, Debug, PartialEq, Eq)]
pub struct FirstInputGate {
    pub notified: bool,
}

impl FirstInputGate {
    /// A gate that has not signalled yet.
    pub fn new() -> (g: FirstInputGate)
        ensures
            !g.notified,
    {
        FirstInputGate { notified: false }
    }

    /// Observes one buffer of `sample_count` samples and says whether to
    /// signal readiness now: for the first non-empty buffer only.
    pub fn observe(&mut self, sample_count: usize) -> (signal: bool)
        ensures
            signal == (sample_count > 0 && !old(self).notified),
            final(self).notified == (old(self).notified || sample_count > 0),
    {
        if sample_count == 0 {
            return false;
        }
        let signal = !self.notified;
        self.notified = true;
        signal
    }
}

/// Whether a gate in state `notified` signals on a buffer of `count`
/// samples.
pub open spec fn signals(notified: bool, count: usize) -> bool {
    count > 0 && !notified
}

/// Readiness is signalled at most once: of two buffers observed one after
/// the other, at most one signals.
pub proof fn law_first_input_signalled_once(notified: bool, first: usize, second: usize)
    ensures
        !(signals(notified, first) && signals(notified || first > 0, second)),
{
}

/// What happened while waiting for the first buffer of input.
#[derive(Clone, Copy, Debug, PartialEq, Eq)]
pub enum WaitOutcome {
    /// A buffer arrived after the given number of milliseconds.
    Received { elapsed_ms: u128 },
    /// Nothing arrived before the timeout.
    TimedOut,
    /// The stream went away before anything arrived.
    Disconnected,
}

/// The result of waiting for the first buffer with a timeout of
/// `timeout_ms`: the time it took, or an error that says why none came.
pub open spec fn wait_result(outcome: WaitOutcome, timeout_ms: u128) -> Result<u128, AppErrorView> {
    match outcome {
        WaitOutcome::Received { elapsed_ms } => Ok(elapsed_ms),
        WaitOutcome::TimedOut => Err(
            AppErrorView::Message(
                "audio input stream did not produce samples within "@ + decimal(
                    timeout_ms as nat,
                ) + " ms"@,
            ),
        ),
        WaitOutcome::Disconnected => Err(
            AppErrorView::Message("audio input stream stopped before producing samples"@),
        ),
    }
}

/// Turns the outcome of waiting for the first input buffer into the time
/// it took or the capture error.
pub fn first_input_wait_result(outcome: WaitOutcome, timeout_ms: u128) -> (r: Result<u128, AppError>)
    ensures
        match wait_result(outcome, timeout_ms) {
            Ok(ms) => r == Ok::<u128, AppError>(ms),
            Err(e) => r matches Err(x) && x@ == e,
        },
{
    match outcome {
        WaitOutcome::Received { elapsed_ms } => Ok(elapsed_ms),
        WaitOutcome::TimedOut => {
            let mut m = owned("audio input stream did not produce samples within ");
            let n = decimal_text(timeout_ms);
            push_str(&mut m, n.as_str());
            push_str(&mut m, " ms");
            Err(AppError::message(m))
        },
        WaitOutcome::Disconnected => Err(
            AppError::message(owned("audio input stream stopped before producing samples")),
        ),
    }
}

/// What happened while waiting for the keepalive stream's thread to start.
#[derive(Clone, Debug, PartialEq, Eq)]
pub enum StartupOutcome {
    Started,
    /// The thread reported why the stream could not be opened.
    Failed(String),
    TimedOut,
    Disconnected,
}

/// Turns the keepalive thread's startup report into the keepalive's result,
/// where `timeout_ms` is how long the startup was waited for.
pub fn keepalive_startup_result(outcome: StartupOutcome, timeout_ms: u128) -> (r: Result<(), String>)
    ensures
        outcome is Started ==> r is Ok,
        outcome matches StartupOutcome::Failed(m) ==> r == Err::<(), String>(m),
        outcome is TimedOut ==> (r matches Err(m) && m@
            == "audio input keepalive stream did not start within "@ + decimal(timeout_ms as nat)
            + " ms"@),
        outcome is Disconnected ==> (r matches Err(m) && m@
            == "audio input keepalive stream stopped before startup completed"@),
{
    match outcome {
        StartupOutcome::Started => Ok(()),
        StartupOutcome::Failed(error) => Err(error),
        StartupOutcome::TimedOut => {
            let mut m = owned("audio input keepalive stream did not start within ");
            let n = decimal_text(timeout_ms);
            push_str(&mut m, n.as_str());
            push_str(&mut m, " ms");
            Err(m)
        },
        StartupOutcome::Disconnected => Err(
            owned("audio input keepalive stream stopped before startup completed"),
        ),
    }
}

/// The bookkeeping of the idle keepalive stream: whether it is open, and
/// the generation counter that invalidates scheduled timeouts. Every
/// cancellation or new schedule moves the generation on (wrapping, as an
/// atomic counter does); a timeout acts only if the generation is still the
/// one it was scheduled under.
#[derive(Clone, Copy, Debug, PartialEq, Eq)]
pub struct IdleKeepalive {
    pub active: bool,
    pub generation: u64,
}

/// The generation after one step.
pub open spec fn next_generation(g: u64) -> u64 {
    if g == u64::MAX {
        0
    } else {
        (g + 1) as u64
    }
}

impl IdleKeepalive {
    /// A closed keepalive with no pending timeout.
    pub fn new() -> (k: IdleKeepalive)
        ensures
            !k.active,
            k.generation == 0,
    {
        IdleKeepalive { active: false, generation: 0 }
    }

    /// Invalidates any scheduled timeout.
    pub fn cancel_timeout(&mut self)
        ensures
            final(self).generation == next_generation(old(self).generation),
            final(self).active == old(self).active,
    {
        self.generation = self.generation.wrapping_add(1);
    }

    /// Whether a stream must be opened before the keepalive counts as on.
    pub fn needs_start(&self) -> (b: bool)
        ensures
            b == !self.active,
    {
        !self.active
    }

    /// Records that a stream was opened.
    pub fn mark_started(&mut self)
        ensures
            final(self).active,
            final(self).generation == old(self).generation,
    {
        self.active = true;
    }

    /// Records that the stream was closed.
    pub fn stop(&mut self)
        ensures
            !final(self).active,
            final(self).generation == old(self).generation,
    {
        self.active = false;
    }

    /// Schedules a timeout and returns its token: the new generation.
    pub fn schedule_timeout(&mut self) -> (token: u64)
        ensures
            final(self).generation == next_generation(old(self).generation),
            token == final(self).generation,
            final(self).active == old(self).active,
    {
        self.generation = self.generation.wrapping_add(1);
        self.generation
    }

    /// Whether the timeout with `token` still applies; when it does, the
    /// stream is to be closed.
    pub fn timeout_applies(&self, token: u64) -> (b: bool)
        ensures
            b == (self.generation == token),
    {
        self.generation == token
    }
}

/// A scheduled timeout that is followed by a cancellation (any switching of
/// the idle stream on or off, or a newer schedule) no longer applies.
pub proof fn law_cancelled_timeout_does_not_apply(g: u64)
    ensures
        next_generation(next_generation(g)) != next_generation(g),
{
}

} // verus!
