//! Decisions of the recording pipeline: what happens to a captured recording
//! after each outside step (trimming, transcription, enhancement, paste),
//! and the outcome that ends a cycle.

use vstd::prelude::*;

use crate::audio::{copy_captured, CapturedAudio};
use crate::error::{app_error_text, AppError};
use crate::ids::SessionId;
use crate::text::{is_blank, normalize_transcript, normalized, owned, push_str};

verus! {

/// Final outcome of a capture/transcription/paste cycle.
#[derive(Clone, Debug, PartialEq, Eq)]
pub enum CycleOutcome {
    Completed,
    CompletedWithWarning(String),
    Failed(String),
}

/// `CycleOutcome` with its message taken as a character sequence.
pub enum OutcomeView {
    Completed,
    Warning(Seq<char>),
    Failed(Seq<char>),
}

impl View for CycleOutcome {
    type V = OutcomeView;

    open spec fn view(&self) -> OutcomeView {
        match self {
            CycleOutcome::Completed => OutcomeView::Completed,
            CycleOutcome::CompletedWithWarning(m) => OutcomeView::Warning(m@),
            CycleOutcome::Failed(m) => OutcomeView::Failed(m@),
        }
    }
}

/// Messages emitted back to the actor from background tasks.
#[derive(Clone, Debug, PartialEq, Eq)]
pub enum InternalEvent {
    ProcessingReady { session_id: SessionId, text: String },
    ProcessingFinished { session_id: SessionId, outcome: CycleOutcome },
    PasteFinished { session_id: SessionId, outcome: CycleOutcome },
    IdleStreamStatusRefresh,
}

/// What the processing task does next: end the cycle with an outcome (after
/// removing the session's files), hand the text to the enhancer, or hand the
/// text on for pasting.
#[derive(Clone, Debug, PartialEq, Eq)]
pub enum ProcessingStep {
    Finish(CycleOutcome),
    Enhance(String),
    Ready(String),
}

/// `ProcessingStep` with its strings taken as character sequences.
pub enum StepView {
    Finish(OutcomeView),
    Enhance(Seq<char>),
    Ready(Seq<char>),
}

impl View for ProcessingStep {
    type V = StepView;

    open spec fn view(&self) -> StepView {
        match self {
            ProcessingStep::Finish(o) => StepView::Finish(o@),
            ProcessingStep::Enhance(t) => StepView::Enhance(t@),
            ProcessingStep::Ready(t) => StepView::Ready(t@),
        }
    }
}

/// A step result, with the text of an outside failure in place of the error.
pub open spec fn outside_result(r: Result<String, AppError>) -> Result<Seq<char>, Seq<char>> {
    match r {
        Ok(t) => Ok(t@),
        Err(e) => Err(app_error_text(e@)),
    }
}

/// What follows a transcription: an empty one ends the cycle with a warning,
/// a failed one ends it as failed with the failure's message, and a
/// non-empty one goes, normalised, to the enhancer when LLM enhancement is
/// enabled and straight to pasting otherwise.
pub open spec fn transcription_step(r: Result<Seq<char>, Seq<char>>, llm_enabled: bool) -> StepView {
    match r {
        Ok(t) => if normalized(t).len() == 0 {
            StepView::Finish(OutcomeView::Warning("transcription returned empty text"@))
        } else if llm_enabled {
            StepView::Enhance(normalized(t))
        } else {
            StepView::Ready(normalized(t))
        },
        Err(m) => StepView::Finish(OutcomeView::Failed(m)),
    }
}

/// What follows an enhancement: an empty result or a failure ends the cycle
/// as failed; otherwise the normalised text goes to pasting.
pub open spec fn enhancement_step(r: Result<Seq<char>, Seq<char>>) -> StepView {
    match r {
        Ok(t) => if normalized(t).len() == 0 {
            StepView::Finish(OutcomeView::Failed("LLM enhancement returned empty text"@))
        } else {
            StepView::Ready(normalized(t))
        },
        Err(m) => StepView::Finish(OutcomeView::Failed("LLM enhancement failed: "@ + m)),
    }
}

/// The outcome that ends the cycle early because of the recording's length,
/// if any: an empty recording, or one shorter than the configured minimum.
pub open spec fn duration_verdict(duration_ms: u64, min_duration_ms: u64) -> Option<OutcomeView> {
    if duration_ms == 0 {
        Some(OutcomeView::Warning("recording was empty"@))
    } else if duration_ms < min_duration_ms {
        Some(
            OutcomeView::Warning("recording was shorter than the configured minimum duration"@),
        )
    } else {
        None
    }
}

/// The text written to the clipboard: the transcription, followed by one
/// space when that is configured and the transcription is not empty.
pub open spec fn clipboard_text_of(text: Seq<char>, append_space: bool) -> Seq<char> {
    if append_space && text.len() > 0 {
        text.push(' ')
    } else {
        text
    }
}

/// The outcome of a paste attempt made after the clipboard was written:
/// a failed paste still completes the cycle, with a warning that names the
/// session.
pub open spec fn paste_outcome_of(session_label: Seq<char>, r: Result<(), Seq<char>>) -> OutcomeView {
    match r {
        Ok(()) => OutcomeView::Completed,
        Err(m) => OutcomeView::Warning(
            "paste failed after clipboard write for session "@ + session_label + ": "@ + m,
        ),
    }
}

/// The recording handed to transcription: the trimmed one when trimming
/// succeeded, else the recording as it was captured.
pub fn audio_after_trim(captured: CapturedAudio, trimmed: Result<CapturedAudio, AppError>) -> (a:
    CapturedAudio)
    ensures
        trimmed matches Ok(t) ==> a == t,
        trimmed is Err ==> a == captured,
{
    match trimmed {
        Ok(t) => t,
        Err(_) => captured,
    }
}

/// Ends the cycle early when the recording is empty or too short.
pub fn check_duration(duration_ms: u64, min_duration_ms: u64) -> (r: Option<CycleOutcome>)
    ensures
        match duration_verdict(duration_ms, min_duration_ms) {
            Some(o) => r matches Some(x) && x@ == o,
            None => r is None,
        },
{
    if duration_ms == 0 {
        return Some(CycleOutcome::CompletedWithWarning(owned("recording was empty")));
    }
    if duration_ms < min_duration_ms {
        return Some(
            CycleOutcome::CompletedWithWarning(
                owned("recording was shorter than the configured minimum duration"),
            ),
        );
    }
    None
}

/// Decides what follows a transcription result.
pub fn after_transcription(result: Result<String, AppError>, llm_enabled: bool) -> (step:
    ProcessingStep)
    ensures
        step@ == transcription_step(outside_result(result), llm_enabled),
{
    match result {
        Ok(text) => {
            let normalized_text = normalize_transcript(text.as_str());
            if normalized_text.as_str().is_empty() {
                ProcessingStep::Finish(
                    CycleOutcome::CompletedWithWarning(owned("transcription returned empty text")),
                )
            } else if llm_enabled {
                ProcessingStep::Enhance(normalized_text)
            } else {
                ProcessingStep::Ready(normalized_text)
            }
        },
        Err(error) => ProcessingStep::Finish(CycleOutcome::Failed(error.to_string())),
    }
}

/// Decides what follows an enhancement result.
pub fn after_enhancement(result: Result<String, AppError>) -> (step: ProcessingStep)
    ensures
        step@ == enhancement_step(outside_result(result)),
{
    match result {
        Ok(enhanced) => {
            let normalized_text = normalize_transcript(enhanced.as_str());
            if normalized_text.as_str().is_empty() {
                ProcessingStep::Finish(
                    CycleOutcome::Failed(owned("LLM enhancement returned empty text")),
                )
            } else {
                ProcessingStep::Ready(normalized_text)
            }
        },
        Err(error) => {
            let mut message = owned("LLM enhancement failed: ");
            let text = error.to_string();
            push_str(&mut message, text.as_str());
            ProcessingStep::Finish(CycleOutcome::Failed(message))
        },
    }
}

/// The event that reports a processing step to the actor, if the step ends
/// the processing task: `Finish` reports the outcome, `Ready` hands the text
/// on, and `Enhance` continues the task.
pub fn processing_event(session_id: SessionId, step: ProcessingStep) -> (e: Option<InternalEvent>)
    ensures
        step matches ProcessingStep::Finish(o) ==> e == Some(
            InternalEvent::ProcessingFinished { session_id, outcome: o },
        ),
        step matches ProcessingStep::Ready(t) ==> e == Some(
            InternalEvent::ProcessingReady { session_id, text: t },
        ),
        step is Enhance ==> e is None,
{
    match step {
        ProcessingStep::Finish(outcome) => Some(
            InternalEvent::ProcessingFinished { session_id, outcome },
        ),
        ProcessingStep::Ready(text) => Some(InternalEvent::ProcessingReady { session_id, text }),
        ProcessingStep::Enhance(_) => None,
    }
}

/// Whether the session's temporary files are removed after a step: when the
/// step ends the cycle. Text handed on for pasting keeps them until the
/// paste has finished.
pub fn needs_cleanup(step: &ProcessingStep) -> (b: bool)
    ensures
        b == (*step is Finish),
{
    match step {
        ProcessingStep::Finish(_) => true,
        _ => false,
    }
}

/// The text written to the clipboard for a transcription.
pub fn clipboard_text(text: &str, append_space: bool) -> (s: String)
    ensures
        s@ == clipboard_text_of(text@, append_space),
{
    let mut s = owned(text);
    if append_space && !text.is_empty() {
        push_str(&mut s, " ");
        proof {
            reveal_strlit(" ");
            assert(s@ =~= text@.push(' '));
        }
    }
    s
}

/// The outcome of the paste step, given the session's printed identifier
/// and the paste backend's result.
pub fn paste_outcome(session_label: &str, result: Result<(), AppError>) -> (o: CycleOutcome)
    ensures
        o@ == paste_outcome_of(
            session_label@,
            match result {
                Ok(()) => Ok(()),
                Err(e) => Err(app_error_text(e@)),
            },
        ),
{
    match result {
        Ok(()) => CycleOutcome::Completed,
        Err(error) => {
            let mut message = owned("paste failed after clipboard write for session ");
            push_str(&mut message, session_label);
            push_str(&mut message, ": ");
            let text = error.to_string();
            push_str(&mut message, text.as_str());
            CycleOutcome::CompletedWithWarning(message)
        },
    }
}

/// The outcome reported for a paste task: its own outcome, or a failure
/// with the error's message when the clipboard could not be written.
pub fn paste_task_outcome(result: Result<CycleOutcome, AppError>) -> (o: CycleOutcome)
    ensures
        result matches Ok(x) ==> o == x,
        result matches Err(e) ==> o@ == OutcomeView::Failed(app_error_text(e@)),
{
    match result {
        Ok(outcome) => outcome,
        Err(error) => CycleOutcome::Failed(error.to_string()),
    }
}

/// A copy of the recording for trimming to work on, so that the recording
/// itself is kept should trimming fail.
pub fn recording_for_trim(audio: &CapturedAudio) -> (a: CapturedAudio)
    ensures
        a.session_id == audio.session_id,
        a.path@ == audio.path@,
        a.duration_ms == audio.duration_ms,
        a.sample_rate_hz == audio.sample_rate_hz,
        a.channels == audio.channels,
{
    copy_captured(audio)
}

/// Text handed on for pasting is never blank: it is the normalised
/// transcription (or enhancement) and holds at least one character.
pub proof fn law_ready_text_is_never_blank(r: Result<Seq<char>, Seq<char>>, llm_enabled: bool)
    ensures
        transcription_step(r, llm_enabled) matches StepView::Ready(t) ==> t.len() > 0 && (
        r matches Ok(x) && t == normalized(x) && !is_blank(x)),
        enhancement_step(r) matches StepView::Ready(t) ==> t.len() > 0 && (r matches Ok(x) && t
            == normalized(x) && !is_blank(x)),
{
    if let Ok(x) = r {
        crate::text::law_normalized_empty_iff_blank(x);
    }
}

/// Enhancement is asked for only when it is enabled, and a transcription
/// goes straight to pasting only when it is disabled.
pub proof fn law_enhancement_only_when_enabled(r: Result<Seq<char>, Seq<char>>, llm_enabled: bool)
    ensures
        transcription_step(r, llm_enabled) is Enhance ==> llm_enabled,
        transcription_step(r, llm_enabled) is Ready ==> !llm_enabled,
{
}

/// A blank transcription never reaches the clipboard: it ends the cycle
/// with a warning, and a blank enhancement ends it as failed.
pub proof fn law_blank_text_ends_cycle(x: Seq<char>, llm_enabled: bool)
    requires
        is_blank(x),
    ensures
        transcription_step(Ok(x), llm_enabled) == StepView::Finish(
            OutcomeView::Warning("transcription returned empty text"@),
        ),
        enhancement_step(Ok(x)) == StepView::Finish(
            OutcomeView::Failed("LLM enhancement returned empty text"@),
        ),
{
    crate::text::law_normalized_empty_iff_blank(x);
}

/// A recording ends the cycle early exactly when it is empty or shorter
/// than the configured minimum, whatever that minimum is: an empty one with
/// the warning that it was empty, a non-empty one below the minimum with the
/// warning that it was too short; one that reaches the minimum goes on.
pub proof fn law_duration_verdict_follows_the_minimum(duration_ms: u64, min_duration_ms: u64)
    ensures
        duration_ms == 0 ==> duration_verdict(duration_ms, min_duration_ms) == Some(
            OutcomeView::Warning("recording was empty"@),
        ),
        0 < duration_ms < min_duration_ms ==> duration_verdict(duration_ms, min_duration_ms)
            == Some(
            OutcomeView::Warning("recording was shorter than the configured minimum duration"@),
        ),
        0 < duration_ms && min_duration_ms <= duration_ms ==> duration_verdict(
            duration_ms,
            min_duration_ms,
        ) is None,
{
}

/// A transcription that holds more than whitespace always goes on,
/// normalised: to the enhancer when enhancement is enabled, else straight to
/// pasting; a failed transcription ends the cycle as failed with the
/// failure's own message.
pub proof fn law_transcription_goes_on_unless_blank_or_failed(
    t: Seq<char>,
    m: Seq<char>,
    llm_enabled: bool,
)
    ensures
        !is_blank(t) && llm_enabled ==> transcription_step(Ok(t), llm_enabled) == StepView::Enhance(
            normalized(t),
        ),
        !is_blank(t) && !llm_enabled ==> transcription_step(Ok(t), llm_enabled) == StepView::Ready(
            normalized(t),
        ),
        transcription_step(Err(m), llm_enabled) == StepView::Finish(OutcomeView::Failed(m)),
        !is_blank(t) ==> enhancement_step(Ok(t)) == StepView::Ready(normalized(t)),
        enhancement_step(Err(m)) == StepView::Finish(
            OutcomeView::Failed("LLM enhancement failed: "@ + m),
        ),
{
    crate::text::law_normalized_empty_iff_blank(t);
}

/// The clipboard receives the text itself, with exactly one space added at
/// the end when that is configured and the text is not empty.
pub proof fn law_clipboard_text_adds_at_most_one_space(text: Seq<char>, append_space: bool)
    ensures
        clipboard_text_of(text, append_space).subrange(0, text.len() as int) == text,
        append_space && text.len() > 0 ==> clipboard_text_of(text, append_space).len() == text.len()
            + 1 && clipboard_text_of(text, append_space)[text.len() as int] == ' ',
        !(append_space && text.len() > 0) ==> clipboard_text_of(text, append_space) == text,
{
    if append_space && text.len() > 0 {
        assert(text.push(' ').subrange(0, text.len() as int) =~= text);
    } else {
        assert(text.subrange(0, text.len() as int) =~= text);
    }
}

} // verus!
