//! Silence trimming of WAV recordings: which frames are loud, the span kept
//! between the first and the last loud frame, and the name of the trimmed
//! file.

use vstd::prelude::*;

use crate::audio::{copy_captured, CapturedAudio};
use crate::text::{owned, push_str};

verus! {

/// The absolute amplitude of a sample, as an integer: `i16::MIN` has
/// amplitude 32768.
pub open spec fn amplitude(s: i16) -> int {
    if s < 0 {
        -(s as int)
    } else {
        s as int
    }
}

/// A sample is loud when its absolute amplitude exceeds the threshold.
pub open spec fn is_loud(s: i16, threshold: u16) -> bool {
    amplitude(s) > threshold as int
}

/// The number of whole frames of `channels` interleaved samples.
pub open spec fn frame_count(len: nat, channels: nat) -> nat {
    len / channels
}

/// Frame `f` holds a loud sample on some channel.
pub open spec fn frame_is_loud(samples: Seq<i16>, channels: nat, threshold: u16, f: int) -> bool {
    exists|c: int| 0 <= c < channels && #[trigger] is_loud(samples[f * channels + c], threshold)
}

/// The part of a recording kept by trimming: frames `first_frame` to
/// `last_frame` inclusive, which are samples `sample_start` to
/// `sample_end` exclusive.
#[derive(Clone, Copy, Debug, PartialEq, Eq)]
pub struct LoudSpan {
    pub first_frame: usize,
    pub last_frame: usize,
    pub sample_start: usize,
    pub sample_end: usize,
}

/// `span` runs from the first loud frame to the last loud frame.
pub open spec fn is_loud_span(
    samples: Seq<i16>,
    channels: nat,
    threshold: u16,
    span: LoudSpan,
) -> bool {
    let frames = frame_count(samples.len(), channels);
    &&& span.first_frame <= span.last_frame < frames
    &&& frame_is_loud(samples, channels, threshold, span.first_frame as int)
    &&& frame_is_loud(samples, channels, threshold, span.last_frame as int)
    &&& forall|f: int|
        0 <= f < span.first_frame ==> !#[trigger] frame_is_loud(samples, channels, threshold, f)
    &&& forall|f: int|
        span.last_frame < f < frames ==> !#[trigger] frame_is_loud(samples, channels, threshold, f)
    &&& span.sample_start == span.first_frame * channels
    &&& span.sample_end == (span.last_frame + 1) * channels
}

proof fn lemma_frame_fits(f: int, channels: int, len: int)
    requires
        channels > 0,
        len >= 0,
        0 <= f < len / channels,
    ensures
        f * channels + channels <= len,
        0 <= f * channels,
{
    assert(f * channels + channels <= (len / channels) * channels) by (nonlinear_arith)
        requires
            0 <= f < len / channels,
            channels > 0,
    ;
    vstd::arithmetic::div_mod::lemma_fundamental_div_mod(len, channels);
    assert(0 <= f * channels) by (nonlinear_arith)
        requires
            0 <= f,
            channels > 0,
    ;
    assert((len / channels) * channels <= len) by (nonlinear_arith)
        requires
            len == channels * (len / channels) + len % channels,
            0 <= len % channels,
    ;
}

fn is_loud_sample(s: i16, threshold: u16) -> (b: bool)
    ensures
        b == is_loud(s, threshold),
{
    let a: i32 = if s < 0 {
        -(s as i32)
    } else {
        s as i32
    };
    a > threshold as i32
}

fn frame_loud(samples: &Vec<i16>, channels: usize, threshold: u16, f: usize) -> (b: bool)
    requires
        channels > 0,
        f < samples.len() / channels,
    ensures
        b == frame_is_loud(samples@, channels as nat, threshold, f as int),
{
    proof {
        lemma_frame_fits(f as int, channels as int, samples.len() as int);
    }
    let start = f * channels;
    let mut c: usize = 0;
    while c < channels
        invariant
            c <= channels,
            start == f * channels,
            start + channels <= samples.len(),
            forall|k: int| 0 <= k < c ==> !is_loud(#[trigger] samples@[start + k], threshold),
        decreases channels - c,
    {
        if is_loud_sample(samples[start + c], threshold) {
            assert(is_loud(samples@[f as int * channels as int + c as int], threshold));
            return true;
        }
        c = c + 1;
    }
    assert forall|k: int| 0 <= k < channels implies !#[trigger] is_loud(
        samples@[f as int * channels as int + k],
        threshold,
    ) by {
        assert(samples@[start + k] == samples@[f as int * channels as int + k]);
    }
    false
}

/// The span from the first to the last loud frame, or `None` when no frame
/// is loud. Trailing samples that do not fill a frame are not looked at.
pub fn loud_span(samples: &Vec<i16>, channels: usize, threshold: u16) -> (r: Option<LoudSpan>)
    requires
        channels > 0,
    ensures
        r matches Some(span) ==> is_loud_span(samples@, channels as nat, threshold, span),
        r is None ==> forall|f: int|
            0 <= f < frame_count(samples.len() as nat, channels as nat) ==> !#[trigger] frame_is_loud(
                samples@,
                channels as nat,
                threshold,
                f,
            ),
{
    let frames = samples.len() / channels;
    let mut first: usize = 0;
    while first < frames && !frame_loud(samples, channels, threshold, first)
        invariant
            frames == samples.len() / channels,
            channels > 0,
            first <= frames,
            forall|f: int|
                0 <= f < first ==> !#[trigger] frame_is_loud(
                    samples@,
                    channels as nat,
                    threshold,
                    f,
                ),
        decreases frames - first,
    {
        first = first + 1;
    }
    if first == frames {
        return None;
    }
    let mut last: usize = frames - 1;
    while last > first && !frame_loud(samples, channels, threshold, last)
        invariant
            frames == samples.len() / channels,
            channels > 0,
            first <= last < frames,
            frame_is_loud(samples@, channels as nat, threshold, first as int),
            forall|f: int|
                last < f < frames ==> !#[trigger] frame_is_loud(
                    samples@,
                    channels as nat,
                    threshold,
                    f,
                ),
        decreases last - first,
    {
        last = last - 1;
    }
    proof {
        lemma_frame_fits(last as int, channels as int, samples.len() as int);
        lemma_frame_fits(first as int, channels as int, samples.len() as int);
        assert((last + 1) * channels == last * channels + channels) by (nonlinear_arith);
    }
    let sample_start = first * channels;
    let sample_end = last * channels + channels;
    Some(LoudSpan { first_frame: first, last_frame: last, sample_start, sample_end })
}

/// A recording with no loud frame is reported with a duration of zero.
pub fn silent_capture(input: &CapturedAudio) -> (a: CapturedAudio)
    ensures
        a.duration_ms == 0,
        a.session_id == input.session_id,
        a.path@ == input.path@,
        a.sample_rate_hz == input.sample_rate_hz,
        a.channels == input.channels,
{
    let mut a = copy_captured(input);
    a.duration_ms = 0;
    a
}

/// The trimmed recording: the same session and format, its new file and its
/// new duration.
pub fn trimmed_capture(input: CapturedAudio, path: String, duration_ms: u64) -> (a: CapturedAudio)
    ensures
        a == (CapturedAudio { path, duration_ms, ..input }),
{
    CapturedAudio { path, duration_ms, ..input }
}

/// What `camino::Utf8Path::extension` gives for a path.
pub uninterp spec fn path_extension(path: Seq<char>) -> Option<Seq<char>>;

/// What `camino::Utf8Path::file_stem` gives for a path.
pub uninterp spec fn path_file_stem(path: Seq<char>) -> Option<Seq<char>>;

/// What `camino::Utf8Path::with_file_name` gives for a path and a file name.
pub uninterp spec fn path_with_file_name(path: Seq<char>, name: Seq<char>) -> Seq<char>;

/// `camino::Utf8Path::extension`: the part of the file name after its last
/// `.`, if any. The result is named by `path_extension` and not stated
/// further.
#[verifier::external_body]
fn extension_of(path: &str) -> (e: Option<String>)
    ensures
        match e {
            Some(x) => path_extension(path@) == Some(x@),
            None => path_extension(path@) is None,
        },
{
    camino::Utf8Path::new(path).extension().map(|x| x.to_string())
}

/// `camino::Utf8Path::file_stem`: the file name without its extension, if
/// there is a file name. The result is named by `path_file_stem` and not
/// stated further.
#[verifier::external_body]
fn file_stem_of(path: &str) -> (e: Option<String>)
    ensures
        match e {
            Some(x) => path_file_stem(path@) == Some(x@),
            None => path_file_stem(path@) is None,
        },
{
    camino::Utf8Path::new(path).file_stem().map(|x| x.to_string())
}

/// `camino::Utf8Path::with_file_name`: the path with its file name replaced.
/// The result is named by `path_with_file_name` and not stated further.
#[verifier::external_body]
fn with_file_name(path: &str, name: &str) -> (p: String)
    ensures
        p@ == path_with_file_name(path@, name@),
{
    camino::Utf8Path::new(path).with_file_name(name).into_string()
}

/// Only recordings whose file has the extension `wav` are trimmed.
pub fn is_trimmable(path: &str) -> (b: bool)
    ensures
        b == (path_extension(path@) == Some("wav"@)),
{
    match extension_of(path) {
        Some(e) => crate::text::str_eq(e.as_str(), "wav"),
        None => false,
    }
}

/// The name of the trimmed file, next to the recording: its stem (or
/// `capture` when it has none) followed by `-trimmed.wav`.
pub open spec fn trimmed_path_of(path: Seq<char>) -> Seq<char> {
    let stem = match path_file_stem(path) {
        Some(s) => s,
        None => "capture"@,
    };
    path_with_file_name(path, stem + "-trimmed.wav"@)
}

/// The path of the trimmed copy of a recording.
pub fn trimmed_wav_path(path: &str) -> (p: String)
    ensures
        p@ == trimmed_path_of(path@),
{
    let mut name = match file_stem_of(path) {
        Some(stem) => stem,
        None => owned("capture"),
    };
    push_str(&mut name, "-trimmed.wav");
    with_file_name(path, name.as_str())
}

/// Simple absolute-amplitude silence trimmer for WAV recordings.
#[derive(Clone, Copy, Debug, PartialEq, Eq)]
pub struct WavSilenceTrimmer {
    pub threshold: u16,
}

impl Default for WavSilenceTrimmer {
    fn default() -> (t: WavSilenceTrimmer)
        ensures
            t.threshold == 500,
    {
        WavSilenceTrimmer { threshold: 500 }
    }
}

impl WavSilenceTrimmer {
    /// A trimmer with the given amplitude threshold.
    pub fn new(threshold: u16) -> (t: WavSilenceTrimmer)
        ensures
            t.threshold == threshold,
    {
        WavSilenceTrimmer { threshold }
    }
}

/// The trimmer is an absolute-amplitude gate: a sample is loud exactly when
/// it lies above the threshold or below its negation, the most negative
/// sample included.
pub proof fn law_loudness_is_absolute_amplitude(s: i16, threshold: u16)
    ensures
        is_loud(s, threshold) <==> (s as int > threshold as int || (s as int) < -(
        threshold as int)),
        threshold < 32768 ==> is_loud(i16::MIN, threshold),
{
}

/// The kept span holds every loud frame: nothing loud is cut away.
pub proof fn law_trimming_keeps_every_loud_frame(
    samples: Seq<i16>,
    channels: nat,
    threshold: u16,
    span: LoudSpan,
    f: int,
)
    requires
        is_loud_span(samples, channels, threshold, span),
        0 <= f < frame_count(samples.len(), channels),
        frame_is_loud(samples, channels, threshold, f),
    ensures
        span.first_frame <= f <= span.last_frame,
{
}

} // verus!
