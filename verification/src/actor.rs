//! Decisions of the daemon actor between its outside work: the status it
//! publishes, the parameters of a new recording, the state after a
//! background task reports back, and what each action asks of the outside.

use vstd::prelude::*;

use crate::audio::RecordSpec;
use crate::config::audio::AudioConfig;
use crate::config::{initial_status_of, AppConfig};
use crate::ids::SessionId;
use crate::command::AppCommand;
use crate::machine::{decide, starts_recording, stops_recording, Action};
use crate::pipeline::{CycleOutcome, InternalEvent};
use crate::ports::TrayState;
use crate::config::input::InputBackend;
use crate::state::{kind_of, AppState, AppStateKind, PastingState, ProcessingState, RecordingState};
use crate::status::AppStatus;

verus! {

/// Reason why the actor stopped processing commands.
#[derive(Clone, Copy, Debug, PartialEq, Eq, Hash, Structural)]
pub enum ActorExit {
    Restart,
    Shutdown,
}

/// The status published for a state: the configuration's static status
/// with the state's kind.
pub open spec fn status_of(config: AppConfig, state: AppState) -> AppStatus {
    AppStatus { state: kind_of(state), ..initial_status_of(config) }
}

/// The status that the actor publishes while in `state`.
pub fn status_for(config: &AppConfig, state: &AppState) -> (s: AppStatus)
    ensures
        s == status_of(*config, *state),
{
    let mut status = config.initial_status();
    status.state = state.kind();
    status
}

/// The recording parameters that the configuration asks for.
pub fn record_spec_for(audio: &AudioConfig) -> (spec: RecordSpec)
    ensures
        spec == (RecordSpec {
            sample_rate_hz: audio.sample_rate_hz,
            channels: audio.channels,
            format: audio.format,
            max_duration_sec: audio.max_duration_sec,
        }),
{
    RecordSpec {
        sample_rate_hz: audio.sample_rate_hz,
        channels: audio.channels,
        format: audio.format,
        max_duration_sec: audio.max_duration_sec,
    }
}

/// The length in bytes of the UTF-8 encoding of `text`.
pub open spec fn utf8_len(text: Seq<char>) -> usize {
    vstd::utf8::encode_utf8(text).len() as usize
}

/// The state after a background task reports back. A transcription that is
/// ready moves the matching processing session to pasting (with the byte
/// length of the text); one for any other session is stale and changes
/// nothing. A finished cycle, whatever its outcome, returns to idle.
pub open spec fn state_after(state: AppState, event: InternalEvent) -> AppState {
    match event {
        InternalEvent::ProcessingReady { session_id, text } => match state {
            AppState::Processing(p) => if p.session_id == session_id {
                AppState::Pasting(PastingState { session_id, text_len: utf8_len(text@) })
            } else {
                state
            },
            _ => state,
        },
        InternalEvent::ProcessingFinished { .. } => AppState::Idle,
        InternalEvent::PasteFinished { .. } => AppState::Idle,
        InternalEvent::IdleStreamStatusRefresh => state,
    }
}

/// Applies a background task's report to the actor's state, returning the
/// new state; `text_len` of a pasting state is the UTF-8 length of the text.
pub fn apply_event(state: &AppState, event: &InternalEvent) -> (next: AppState)
    ensures
        next == state_after(*state, *event),
{
    match event {
        InternalEvent::ProcessingReady { session_id, text } => match state {
            AppState::Processing(ProcessingState { session_id: current }) => {
                if current.value == session_id.value {
                    AppState::Pasting(
                        PastingState { session_id: *session_id, text_len: text.as_str().len() },
                    )
                } else {
                    *state
                }
            },
            _ => *state,
        },
        InternalEvent::ProcessingFinished { .. } => AppState::Idle,
        InternalEvent::PasteFinished { .. } => AppState::Idle,
        InternalEvent::IdleStreamStatusRefresh => *state,
    }
}

/// Whether a report starts the paste phase: a ready transcription for the
/// session that is being processed.
pub fn starts_paste(state: &AppState, event: &InternalEvent) -> (b: bool)
    ensures
        b == (state_after(*state, *event) is Pasting && !(*state is Pasting)),
{
    match (state, event) {
        (
            AppState::Processing(ProcessingState { session_id: current }),
            InternalEvent::ProcessingReady { session_id, .. },
        ) => current.value == session_id.value,
        _ => false,
    }
}

/// The tray state that an action sets, if it sets one.
pub fn tray_state_for(action: &Action) -> (t: Option<TrayState>)
    ensures
        *action == Action::SetTrayIdle <==> t == Some(TrayState::Idle),
        *action == Action::SetTrayRecording <==> t == Some(TrayState::Recording),
        *action == Action::SetTrayProcessing <==> t == Some(TrayState::Processing),
{
    match action {
        Action::SetTrayIdle => Some(TrayState::Idle),
        Action::SetTrayRecording => Some(TrayState::Recording),
        Action::SetTrayProcessing => Some(TrayState::Processing),
        _ => None,
    }
}

/// How the actor exits after an action, if it does: restart and shutdown
/// end the actor's loop, every other action lets it continue.
pub fn exit_for(action: &Action) -> (e: Option<ActorExit>)
    ensures
        *action == Action::Restart <==> e == Some(ActorExit::Restart),
        *action == Action::Shutdown <==> e == Some(ActorExit::Shutdown),
{
    match action {
        Action::Restart => Some(ActorExit::Restart),
        Action::Shutdown => Some(ActorExit::Shutdown),
        _ => None,
    }
}

/// Whether the idle input stream should be on after an action, given
/// whether it is on now; `None` for actions that leave it alone.
pub fn idle_stream_wanted(action: &Action, active: bool) -> (w: Option<bool>)
    ensures
        *action == Action::EnableInputStream ==> w == Some(true),
        *action == Action::DisableInputStream ==> w == Some(false),
        *action == Action::ToggleInputStream ==> w == Some(!active),
        !(*action == Action::EnableInputStream || *action == Action::DisableInputStream
            || *action == Action::ToggleInputStream) ==> w is None,
{
    match action {
        Action::EnableInputStream => Some(true),
        Action::DisableInputStream => Some(false),
        Action::ToggleInputStream => Some(!active),
        _ => None,
    }
}

/// A side effect that the actor performs around the state machine's actions.
#[derive(Clone, Debug, PartialEq, Eq)]
pub enum ActorEffect {
    /// Abort the active recording, if there is one.
    AbortActiveRecording,
    /// Publish the status of the new state.
    PublishStatus,
    /// Set the tray to the given state.
    SetTray(TrayState),
    /// Remove the session's temporary files.
    CleanupSession(SessionId),
    /// Show an error message to the user.
    ShowError(String),
}

/// The actor's next state and the effects to perform, in order, once that
/// state is in place.
#[derive(Clone, Debug, PartialEq, Eq)]
pub struct ActorStep {
    pub next_state: AppState,
    pub effects: Vec<ActorEffect>,
}

/// When the capture of a new recording cannot be started: back to idle, the
/// status is published, the tray set to idle, the session's files removed
/// and the error shown.
pub fn capture_start_failed(session_id: SessionId, message: String) -> (step: ActorStep)
    ensures
        step.next_state == AppState::Idle,
        step.effects@ == seq![
            ActorEffect::PublishStatus,
            ActorEffect::SetTray(TrayState::Idle),
            ActorEffect::CleanupSession(session_id),
            ActorEffect::ShowError(message),
        ],
{
    ActorStep {
        next_state: AppState::Idle,
        effects: vec![
            ActorEffect::PublishStatus,
            ActorEffect::SetTray(TrayState::Idle),
            ActorEffect::CleanupSession(session_id),
            ActorEffect::ShowError(message),
        ],
    }
}

/// When a stop is asked for while no recording is active: back to idle,
/// with the status published and the tray set to idle.
pub fn stop_without_recording() -> (step: ActorStep)
    ensures
        step.next_state == AppState::Idle,
        step.effects@ == seq![ActorEffect::PublishStatus, ActorEffect::SetTray(TrayState::Idle)],
{
    ActorStep {
        next_state: AppState::Idle,
        effects: vec![ActorEffect::PublishStatus, ActorEffect::SetTray(TrayState::Idle)],
    }
}

/// When the actor stops: the active recording is aborted, the daemon is
/// shutting down, its status is published and the tray set to idle.
pub fn shutdown_step() -> (step: ActorStep)
    ensures
        step.next_state == AppState::ShuttingDown,
        step.effects@ == seq![
            ActorEffect::AbortActiveRecording,
            ActorEffect::PublishStatus,
            ActorEffect::SetTray(TrayState::Idle),
        ],
{
    ActorStep {
        next_state: AppState::ShuttingDown,
        effects: vec![
            ActorEffect::AbortActiveRecording,
            ActorEffect::PublishStatus,
            ActorEffect::SetTray(TrayState::Idle),
        ],
    }
}

/// When a cycle ends with `outcome`: a failure is shown to the user first;
/// then, whatever the outcome, the daemon is idle again, its status is
/// published and the tray set to idle.
pub fn cycle_finished(outcome: CycleOutcome) -> (step: ActorStep)
    ensures
        step.next_state == AppState::Idle,
        outcome matches CycleOutcome::Failed(m) ==> step.effects@ == seq![
            ActorEffect::ShowError(m),
            ActorEffect::PublishStatus,
            ActorEffect::SetTray(TrayState::Idle),
        ],
        !(outcome is Failed) ==> step.effects@ == seq![
            ActorEffect::PublishStatus,
            ActorEffect::SetTray(TrayState::Idle),
        ],
{
    let mut effects: Vec<ActorEffect> = Vec::new();
    if let CycleOutcome::Failed(reason) = outcome {
        effects.push(ActorEffect::ShowError(reason));
    }
    effects.push(ActorEffect::PublishStatus);
    effects.push(ActorEffect::SetTray(TrayState::Idle));
    ActorStep { next_state: AppState::Idle, effects }
}

/// One whole cycle keeps one session: starting from idle records under the
/// fresh identifier, stopping processes that same session, and its ready
/// transcription moves it to pasting under the same identifier; the cycle's
/// end returns to idle.
pub proof fn law_cycle_keeps_one_session(
    start: AppCommand,
    stop: AppCommand,
    fresh: SessionId,
    other: SessionId,
    text: String,
    outcome: CycleOutcome,
)
    requires
        starts_recording(start),
        stops_recording(stop),
    ensures
        ({
            let recording = decide(AppState::Idle, start, fresh).0;
            let processing = decide(recording, stop, other).0;
            let pasting = state_after(
                processing,
                InternalEvent::ProcessingReady { session_id: fresh, text },
            );
            &&& recording == AppState::Recording(RecordingState { session_id: fresh })
            &&& processing == AppState::Processing(ProcessingState { session_id: fresh })
            &&& pasting == AppState::Pasting(
                PastingState { session_id: fresh, text_len: utf8_len(text@) },
            )
            &&& state_after(pasting, InternalEvent::PasteFinished { session_id: fresh, outcome })
                == AppState::Idle
        }),
{
}

/// A report for another session than the one being processed is ignored:
/// the state is unchanged.
pub proof fn law_stale_ready_report_is_ignored(state: AppState, session_id: SessionId, text: String)
    requires
        !(state matches AppState::Processing(p) && p.session_id == session_id),
    ensures
        state_after(state, InternalEvent::ProcessingReady { session_id, text }) == state,
{
}

/// Pasting always belongs to the session that was being processed: the
/// pasting state after a report carries the processing session's identifier.
pub proof fn law_pasting_keeps_processing_session(state: AppState, event: InternalEvent)
    requires
        state_after(state, event) is Pasting,
        !(state is Pasting),
    ensures
        state matches AppState::Processing(p) && state_after(state, event)->Pasting_0.session_id
            == p.session_id,
{
}

/// Every finished cycle, processing or paste, returns the daemon to idle.
pub proof fn law_finished_cycle_returns_to_idle(state: AppState, session_id: SessionId, outcome: CycleOutcome)
    ensures
        state_after(state, InternalEvent::ProcessingFinished { session_id, outcome }) is Idle,
        state_after(state, InternalEvent::PasteFinished { session_id, outcome }) is Idle,
{
}

/// The published status reports the configuration as it is: the provider,
/// the tray's availability (`ui.tray`) and the portal's (the portal input
/// backend), together with the kind of the current state.
pub proof fn law_status_reflects_config_and_state(config: AppConfig, state: AppState)
    ensures
        status_of(config, state).tray_available == config.ui.tray,
        status_of(config, state).portal_available == (config.input.backend
            == InputBackend::Portal),
        status_of(config, state).provider == config.provider.kind,
        status_of(config, state).state == kind_of(state),
        initial_status_of(config).tray_available == config.ui.tray,
        initial_status_of(config).portal_available == (config.input.backend
            == InputBackend::Portal),
        initial_status_of(config).provider == config.provider.kind,
        initial_status_of(config).state == AppStateKind::Idle,
{
}

} // verus!
