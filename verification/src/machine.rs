//! The daemon's pure state machine: one command against the current state
//! gives the next state and the side effects to perform, in order.

use vstd::prelude::*;

use crate::command::{is_input_stream_command, is_recording_command, AppCommand};
use crate::error::CoreError;
use crate::ids::{is_random_uuid, SessionId};
use crate::state::{AppState, ProcessingState, RecordingState};

verus! {

/// Why a command was ignored: no recording is running.
pub const REASON_NOT_ACTIVE: &'static str = "recording is not active";

/// Why a command was ignored: a recording is already running.
pub const REASON_ALREADY_ACTIVE: &'static str = "recording is already active";

/// Why a command was ignored: the daemon is stopping.
pub const REASON_SHUTTING_DOWN: &'static str = "daemon is shutting down";

/// Why a command was ignored: the previous cycle is still in progress.
pub const REASON_BUSY: &'static str = "recording command ignored while the previous cycle is busy";

/// Why a command was ignored in a busy state that no other rule covers.
pub const REASON_UNEXPECTED: &'static str = "unexpected command for busy state";

/// Side effects requested by the reducer.
#[derive(Clone, Copy, Debug, PartialEq, Eq)]
pub enum Action {
    StartRecording { session_id: SessionId },
    StopRecording { session_id: SessionId },
    AbortRecording { session_id: SessionId },
    SetTrayIdle,
    SetTrayRecording,
    SetTrayProcessing,
    PlayStartCue,
    PlayStopCue,
    Ignore { reason: &'static str },
    ToggleInputStream,
    EnableInputStream,
    DisableInputStream,
    Restart,
    Shutdown,
}

/// Result of reducing one command against the current state.
#[derive(Clone, Debug, PartialEq, Eq)]
pub struct Decision {
    pub next_state: AppState,
    pub actions: Vec<Action>,
}

/// The states in which a previous cycle is still being processed or pasted.
pub open spec fn is_busy(state: AppState) -> bool {
    state is Processing || state is Pasting
}

/// The commands that begin a recording when the daemon is idle.
pub open spec fn starts_recording(command: AppCommand) -> bool {
    command is StartRecording || command is ToggleRecording
}

/// The commands that end a recording and hand it on for processing.
pub open spec fn stops_recording(command: AppCommand) -> bool {
    command is StopRecording || command is ToggleRecording
}

/// The decision table of the daemon: the next state and the actions, in the
/// order in which they are performed. `fresh` is the identifier that a new
/// recording receives.
pub open spec fn decide(state: AppState, command: AppCommand, fresh: SessionId) -> (
    AppState,
    Seq<Action>,
) {
    match command {
        AppCommand::Restart { .. } => (AppState::ShuttingDown, seq![Action::Restart]),
        AppCommand::Shutdown { .. } => (AppState::ShuttingDown, seq![Action::Shutdown]),
        AppCommand::ToggleInputStream { .. } => (state, seq![Action::ToggleInputStream]),
        AppCommand::EnableInputStream { .. } => (state, seq![Action::EnableInputStream]),
        AppCommand::DisableInputStream { .. } => (state, seq![Action::DisableInputStream]),
        _ => match state {
            AppState::Idle => if starts_recording(command) {
                (
                    AppState::Recording(RecordingState { session_id: fresh }),
                    seq![
                        Action::SetTrayRecording,
                        Action::StartRecording { session_id: fresh },
                        Action::PlayStartCue,
                    ],
                )
            } else {
                (AppState::Idle, seq![Action::Ignore { reason: REASON_NOT_ACTIVE }])
            },
            AppState::Recording(r) => if command is CancelRecording {
                (
                    AppState::Idle,
                    seq![
                        Action::SetTrayIdle,
                        Action::PlayStopCue,
                        Action::AbortRecording { session_id: r.session_id },
                    ],
                )
            } else if stops_recording(command) {
                (
                    AppState::Processing(ProcessingState { session_id: r.session_id }),
                    seq![
                        Action::PlayStopCue,
                        Action::SetTrayProcessing,
                        Action::StopRecording { session_id: r.session_id },
                    ],
                )
            } else {
                (state, seq![Action::Ignore { reason: REASON_ALREADY_ACTIVE }])
            },
            AppState::ShuttingDown => (
                AppState::ShuttingDown,
                seq![Action::Ignore { reason: REASON_SHUTTING_DOWN }],
            ),
            _ => (
                state,
                seq![
                    Action::Ignore {
                        reason: REASON_BUSY,
                    },
                ],
            ),
        },
    }
}

/// `d` is the decision `expected`.
pub open spec fn is_decision(d: Decision, expected: (AppState, Seq<Action>)) -> bool {
    d.next_state == expected.0 && d.actions@ =~= expected.1
}

/// Returns `true` when new recording commands should be ignored.
pub fn should_ignore_recording_command(state: &AppState) -> (b: bool)
    ensures
        b == is_busy(*state),
{
    match state {
        AppState::Processing(_) | AppState::Pasting(_) => true,
        _ => false,
    }
}

/// Whether `actions` holds `SetTrayIdle`.
fn has_set_tray_idle(actions: &Vec<Action>) -> (b: bool)
    ensures
        b == actions@.contains(Action::SetTrayIdle),
{
    let mut i: usize = 0;
    while i < actions.len()
        invariant
            i <= actions.len(),
            forall|j: int| 0 <= j < i ==> actions@[j] != Action::SetTrayIdle,
        decreases actions.len() - i,
    {
        if let Action::SetTrayIdle = actions[i] {
            assert(actions@[i as int] == Action::SetTrayIdle);
            return true;
        }
        i = i + 1;
    }
    false
}

/// Applies a command to the current state with `fresh` as the identifier
/// of a recording that the command starts.
pub fn reduce_with_session(state: &AppState, command: &AppCommand, fresh: SessionId) -> (r:
    Result<Decision, CoreError>)
    ensures
        r matches Ok(d) && is_decision(d, decide(*state, *command, fresh)),
{
    let decision = match (state, command) {
        (_, AppCommand::Restart { .. }) => Decision {
            next_state: AppState::ShuttingDown,
            actions: vec![Action::Restart],
        },
        (_, AppCommand::Shutdown { .. }) => Decision {
            next_state: AppState::ShuttingDown,
            actions: vec![Action::Shutdown],
        },
        (_, AppCommand::ToggleInputStream { .. }) => Decision {
            next_state: *state,
            actions: vec![Action::ToggleInputStream],
        },
        (_, AppCommand::EnableInputStream { .. }) => Decision {
            next_state: *state,
            actions: vec![Action::EnableInputStream],
        },
        (_, AppCommand::DisableInputStream { .. }) => Decision {
            next_state: *state,
            actions: vec![Action::DisableInputStream],
        },
        (AppState::Idle, AppCommand::StartRecording { .. })
        | (AppState::Idle, AppCommand::ToggleRecording { .. }) => Decision {
            next_state: AppState::Recording(RecordingState { session_id: fresh }),
            actions: vec![
                Action::SetTrayRecording,
                Action::StartRecording { session_id: fresh },
                Action::PlayStartCue,
            ],
        },
        (AppState::Idle, AppCommand::StopRecording { .. })
        | (AppState::Idle, AppCommand::CancelRecording { .. }) => Decision {
            next_state: AppState::Idle,
            actions: vec![Action::Ignore { reason: REASON_NOT_ACTIVE }],
        },
        (AppState::Recording(RecordingState { session_id }), AppCommand::CancelRecording { .. }) => {
            Decision {
                next_state: AppState::Idle,
                actions: vec![
                    Action::SetTrayIdle,
                    Action::PlayStopCue,
                    Action::AbortRecording { session_id: *session_id },
                ],
            }
        },
        (AppState::Recording(RecordingState { session_id }), AppCommand::StopRecording { .. })
        | (
            AppState::Recording(RecordingState { session_id }),
            AppCommand::ToggleRecording { .. },
        ) => Decision {
            next_state: AppState::Processing(ProcessingState { session_id: *session_id }),
            actions: vec![
                Action::PlayStopCue,
                Action::SetTrayProcessing,
                Action::StopRecording { session_id: *session_id },
            ],
        },
        (AppState::Recording(_), AppCommand::StartRecording { .. }) => Decision {
            next_state: *state,
            actions: vec![Action::Ignore { reason: REASON_ALREADY_ACTIVE }],
        },
        (busy_state, _) if should_ignore_recording_command(busy_state) => Decision {
            next_state: *busy_state,
            actions: vec![
                Action::Ignore {
                    reason: REASON_BUSY,
                },
            ],
        },
        (AppState::ShuttingDown, _) => Decision {
            next_state: AppState::ShuttingDown,
            actions: vec![Action::Ignore { reason: REASON_SHUTTING_DOWN }],
        },
        _ => Decision {
            next_state: *state,
            actions: vec![Action::Ignore { reason: REASON_UNEXPECTED }],
        },
    };
    let next_is_idle = match decision.next_state {
        AppState::Idle => true,
        _ => false,
    };
    let was_idle = match state {
        AppState::Idle => true,
        _ => false,
    };
    if next_is_idle && !was_idle && !has_set_tray_idle(&decision.actions) {
        assert(decision.actions@[0] == Action::SetTrayIdle);
        let mut actions = decision.actions;
        actions.push(Action::SetTrayIdle);
        return Ok(Decision { next_state: decision.next_state, actions });
    }
    Ok(decision)
}

/// Applies a command to the current state and returns the next state plus
/// side effects. A command that starts a recording gives it a fresh random
/// (version 4) identifier; every other decision is fixed by the state and
/// the command.
pub fn reduce(state: &AppState, command: &AppCommand) -> (r: Result<Decision, CoreError>)
    ensures
        r is Ok,
        state is Idle && starts_recording(*command) ==> exists|fresh: SessionId|
            is_random_uuid(fresh.value) && is_decision(
                #[trigger] r->Ok_0,
                decide(*state, *command, fresh),
            ),
        !(state is Idle && starts_recording(*command)) ==> is_decision(
            r->Ok_0,
            decide(*state, *command, SessionId { value: 0 }),
        ),
{
    let fresh = if let AppState::Idle = state {
        match command {
            AppCommand::StartRecording { .. } | AppCommand::ToggleRecording { .. } => {
                SessionId::new()
            },
            _ => SessionId { value: 0 },
        }
    } else {
        SessionId { value: 0 }
    };
    let r = reduce_with_session(state, command, fresh);
    proof {
        if !(state is Idle && starts_recording(*command)) {
            lemma_decide_ignores_fresh(*state, *command, fresh, SessionId { value: 0 });
        }
    }
    r
}

/// Only a recording started from the idle state uses the fresh identifier.
pub proof fn lemma_decide_ignores_fresh(
    state: AppState,
    command: AppCommand,
    a: SessionId,
    b: SessionId,
)
    requires
        !(state is Idle && starts_recording(command)),
    ensures
        decide(state, command, a) == decide(state, command, b),
{
}

/// Restart and shutdown are obeyed from every state: the daemon moves to
/// `ShuttingDown` and performs exactly the matching action.
pub proof fn law_restart_and_shutdown_from_any_state(
    state: AppState,
    command: AppCommand,
    fresh: SessionId,
)
    requires
        command is Restart || command is Shutdown,
    ensures
        decide(state, command, fresh).0 == AppState::ShuttingDown,
        command is Restart ==> decide(state, command, fresh).1 == seq![Action::Restart],
        command is Shutdown ==> decide(state, command, fresh).1 == seq![Action::Shutdown],
{
}

/// Input-stream commands are handled in every state, busy ones included, and
/// never change the state: each yields its one matching action.
pub proof fn law_input_stream_commands_keep_state(
    state: AppState,
    command: AppCommand,
    fresh: SessionId,
)
    requires
        is_input_stream_command(command),
    ensures
        decide(state, command, fresh).0 == state,
        decide(state, command, fresh).1.len() == 1,
        command is ToggleInputStream ==> decide(state, command, fresh).1[0]
            == Action::ToggleInputStream,
        command is EnableInputStream ==> decide(state, command, fresh).1[0]
            == Action::EnableInputStream,
        command is DisableInputStream ==> decide(state, command, fresh).1[0]
            == Action::DisableInputStream,
{
}

/// While a previous cycle is being processed or pasted, recording commands
/// are ignored and leave the state unchanged.
pub proof fn law_busy_states_ignore_recording_commands(
    state: AppState,
    command: AppCommand,
    fresh: SessionId,
)
    requires
        is_busy(state),
        is_recording_command(command),
    ensures
        decide(state, command, fresh) == (state, seq![Action::Ignore { reason: REASON_BUSY }]),
{
}

/// Once shutting down, the daemon stays shutting down whatever it is told.
pub proof fn law_shutting_down_is_final(command: AppCommand, fresh: SessionId)
    ensures
        decide(AppState::ShuttingDown, command, fresh).0 == AppState::ShuttingDown,
{
}

/// A recording keeps its session identifier: stopping it moves to processing
/// of the same session and stops that session's capture; cancelling it
/// returns to idle and aborts that session's capture.
pub proof fn law_recording_session_is_kept(
    r: RecordingState,
    command: AppCommand,
    fresh: SessionId,
)
    ensures
        stops_recording(command) ==> decide(AppState::Recording(r), command, fresh).0
            == AppState::Processing(ProcessingState { session_id: r.session_id })
            && decide(AppState::Recording(r), command, fresh).1.contains(
            Action::StopRecording { session_id: r.session_id },
        ),
        command is CancelRecording ==> decide(AppState::Recording(r), command, fresh).0
            == AppState::Idle && decide(AppState::Recording(r), command, fresh).1.contains(
            Action::AbortRecording { session_id: r.session_id },
        ),
{
    let d = decide(AppState::Recording(r), command, fresh);
    if stops_recording(command) {
        assert(d.1[2] == Action::StopRecording { session_id: r.session_id });
    }
    if command is CancelRecording {
        assert(d.1[2] == Action::AbortRecording { session_id: r.session_id });
    }
}

/// Starting from idle creates the recording with the fresh identifier, tells
/// the capture to start under that same identifier, and plays the start cue
/// only after the capture was started.
pub proof fn law_start_uses_fresh_session_before_cue(command: AppCommand, fresh: SessionId)
    requires
        starts_recording(command),
    ensures
        decide(AppState::Idle, command, fresh).0 == AppState::Recording(
            (RecordingState { session_id: fresh }),
        ),
        decide(AppState::Idle, command, fresh).1.len() == 3,
        decide(AppState::Idle, command, fresh).1[1] == (Action::StartRecording { session_id: fresh }),
        decide(AppState::Idle, command, fresh).1[2] == Action::PlayStartCue,
        forall|i: int|
            0 <= i < 2 ==> decide(AppState::Idle, command, fresh).1[i] != Action::PlayStartCue,
{
}

/// Every decision performs at least one action, so no command passes
/// silently.
pub proof fn law_every_decision_acts(state: AppState, command: AppCommand, fresh: SessionId)
    ensures
        decide(state, command, fresh).1.len() >= 1,
{
}

/// Whenever a command takes a non-idle daemon back to idle, the tray is set
/// to idle.
pub proof fn law_return_to_idle_resets_tray(
    state: AppState,
    command: AppCommand,
    fresh: SessionId,
)
    requires
        !(state is Idle),
        decide(state, command, fresh).0 is Idle,
    ensures
        decide(state, command, fresh).1.contains(Action::SetTrayIdle),
{
    assert(decide(state, command, fresh).1[0] == Action::SetTrayIdle);
}

/// Commands never lead into the paste phase: only a finished transcription
/// does, so a pasting state after a command was already pasting before it.
pub proof fn law_commands_never_start_pasting(
    state: AppState,
    command: AppCommand,
    fresh: SessionId,
)
    requires
        decide(state, command, fresh).0 is Pasting,
    ensures
        decide(state, command, fresh).0 == state,
{
}

/// From idle, a command that stops or cancels a recording finds nothing to
/// act on: the daemon stays idle and only reports that no recording is
/// active.
pub proof fn law_idle_ignores_stop_and_cancel(command: AppCommand, fresh: SessionId)
    requires
        command is StopRecording || command is CancelRecording,
    ensures
        decide(AppState::Idle, command, fresh).0 == AppState::Idle,
        decide(AppState::Idle, command, fresh).1 == seq![
            Action::Ignore { reason: REASON_NOT_ACTIVE },
        ],
        REASON_NOT_ACTIVE@ == "recording is not active"@,
{
}

/// Only a restart or shutdown command leads the daemon into shutting down;
/// every other command leaves a running daemon running.
pub proof fn law_only_restart_or_shutdown_stops_the_daemon(
    state: AppState,
    command: AppCommand,
    fresh: SessionId,
)
    requires
        !(state is ShuttingDown),
        !(command is Restart || command is Shutdown),
    ensures
        !(decide(state, command, fresh).0 is ShuttingDown),
        !decide(state, command, fresh).1.contains(Action::Shutdown),
        !decide(state, command, fresh).1.contains(Action::Restart),
{
    let d = decide(state, command, fresh);
    assert forall|i: int| 0 <= i < d.1.len() implies d.1[i] != Action::Shutdown && d.1[i]
        != Action::Restart by {}
}

/// Recording commands that cannot apply are ignored without changing the
/// state: a start while recording reports that a recording is already
/// active, and every command but restart and shutdown is ignored while
/// shutting down.
pub proof fn law_inapplicable_commands_are_ignored(
    r: RecordingState,
    command: AppCommand,
    fresh: SessionId,
)
    ensures
        command is StartRecording ==> decide(AppState::Recording(r), command, fresh) == (
            AppState::Recording(r),
            seq![Action::Ignore { reason: REASON_ALREADY_ACTIVE }],
        ),
        is_recording_command(command) ==> decide(AppState::ShuttingDown, command, fresh) == (
            AppState::ShuttingDown,
            seq![Action::Ignore { reason: REASON_SHUTTING_DOWN }],
        ),
        REASON_ALREADY_ACTIVE@ == "recording is already active"@,
        REASON_SHUTTING_DOWN@ == "daemon is shutting down"@,
        REASON_BUSY@ == "recording command ignored while the previous cycle is busy"@,
{
}

} // verus!
