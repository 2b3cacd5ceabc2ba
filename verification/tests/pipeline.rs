use glossa::actor::{
    apply_event, capture_start_failed, cycle_finished, exit_for, idle_stream_wanted, record_spec_for,
    shutdown_step, starts_paste, status_for, stop_without_recording, tray_state_for, ActorEffect,
    ActorExit,
};
use glossa::audio::{AudioFormat, CapturedAudio, RecordSpec};
use glossa::command::{AppCommand, CommandOrigin};
use glossa::config::AppConfig;
use glossa::error::AppError;
use glossa::ids::SessionId;
use glossa::machine::{reduce, Action};
use glossa::pipeline::{
    after_enhancement, after_transcription, audio_after_trim, check_duration, clipboard_text,
    needs_cleanup, paste_outcome, paste_task_outcome, processing_event, CycleOutcome, InternalEvent,
    ProcessingStep,
};
use glossa::ports::{ClipboardSnapshot, NoopTextEnhancer, NullTrayPort, TrayState};
use glossa::state::{AppState, AppStateKind, PastingState, ProcessingState};

fn captured(duration_ms: u64) -> CapturedAudio {
    CapturedAudio {
        session_id: SessionId::from_u128(1),
        path: "/tmp/test.wav".into(),
        duration_ms,
        sample_rate_hz: 16000,
        channels: 1,
    }
}

#[test]
fn noop_enhancer_should_return_text_unchanged() {
    let enhancer = NoopTextEnhancer;
    let result = enhancer.enhance("hello world").expect("should succeed");
    assert_eq!(result, "hello world");
}

#[test]
fn noop_enhancer_name_should_be_noop() {
    assert_eq!(NoopTextEnhancer.name(), "noop");
}

#[test]
fn paste_cycle_should_append_a_space_before_writing_to_clipboard_when_enabled() {
    let text = clipboard_text("hello", true);
    let outcome = paste_outcome("s", Ok(()));

    assert!(matches!(outcome, CycleOutcome::Completed));
    assert_eq!(text, "hello ");
}

#[test]
fn paste_cycle_should_leave_text_unchanged_when_append_space_is_disabled() {
    let text = clipboard_text("hello", false);
    let outcome = paste_outcome("s", Ok(()));

    assert!(matches!(outcome, CycleOutcome::Completed));
    assert_eq!(text, "hello");
}

#[test]
fn processing_task_should_enhance_text_when_llm_enabled() {
    let step = after_transcription(Ok("hello world".into()), true);
    assert_eq!(step, ProcessingStep::Enhance("hello world".into()));
    let step = after_enhancement(Ok("Hello, world!".into()));
    match processing_event(SessionId::from_u128(5), step) {
        Some(InternalEvent::ProcessingReady { text, .. }) => {
            assert_eq!(text, "Hello, world!");
        }
        other => panic!("expected ProcessingReady, got {other:?}"),
    }
}

#[test]
fn processing_task_should_skip_enhancement_when_llm_disabled() {
    let step = after_transcription(Ok("hello world".into()), false);
    match processing_event(SessionId::from_u128(5), step) {
        Some(InternalEvent::ProcessingReady { text, .. }) => {
            assert_eq!(text, "hello world");
        }
        other => panic!("expected ProcessingReady, got {other:?}"),
    }
}

#[test]
fn processing_task_should_fail_when_enhancer_returns_empty() {
    let step = after_enhancement(Ok("   ".into()));
    match processing_event(SessionId::from_u128(5), step) {
        Some(InternalEvent::ProcessingFinished { outcome, .. }) => match outcome {
            CycleOutcome::Failed(msg) => {
                assert!(msg.contains("empty text"));
            }
            other => panic!("expected Failed, got {other:?}"),
        },
        other => panic!("expected ProcessingFinished, got {other:?}"),
    }
}

#[test]
fn processing_task_should_fail_when_enhancer_errors() {
    let step = after_enhancement(Err(AppError::Message("network error".into())));
    match processing_event(SessionId::from_u128(5), step) {
        Some(InternalEvent::ProcessingFinished { outcome, .. }) => match outcome {
            CycleOutcome::Failed(msg) => {
                assert!(msg.contains("network error"));
                assert_eq!(msg, "LLM enhancement failed: network error");
            }
            other => panic!("expected Failed, got {other:?}"),
        },
        other => panic!("expected ProcessingFinished, got {other:?}"),
    }
}

#[test]
fn transcription_should_be_trimmed_and_use_unix_line_endings() {
    let step = after_transcription(Ok("  first line\r\nsecond\r\n \t".into()), false);
    assert_eq!(step, ProcessingStep::Ready("first line\nsecond".into()));
}

#[test]
fn blank_transcription_should_end_with_a_warning() {
    let step = after_transcription(Ok(" \r\n\u{a0}".into()), true);
    assert_eq!(
        step,
        ProcessingStep::Finish(CycleOutcome::CompletedWithWarning(
            "transcription returned empty text".into()
        ))
    );
    let failed = after_transcription(Err(AppError::Message("http 500".into())), true);
    assert_eq!(failed, ProcessingStep::Finish(CycleOutcome::Failed("http 500".into())));
    assert_eq!(processing_event(SessionId::default(), ProcessingStep::Enhance("x".into())), None);
}

#[test]
fn short_and_empty_recordings_should_end_the_cycle() {
    assert_eq!(
        check_duration(0, 150),
        Some(CycleOutcome::CompletedWithWarning("recording was empty".into()))
    );
    assert_eq!(
        check_duration(149, 150),
        Some(CycleOutcome::CompletedWithWarning(
            "recording was shorter than the configured minimum duration".into()
        ))
    );
    assert_eq!(check_duration(150, 150), None);
}

#[test]
fn failed_trim_should_keep_the_captured_recording() {
    let untrimmed = captured(1000);
    let trimmed = CapturedAudio { path: "/tmp/test-trimmed.wav".into(), duration_ms: 800, ..untrimmed.clone() };
    assert_eq!(audio_after_trim(untrimmed.clone(), Ok(trimmed.clone())), trimmed);
    assert_eq!(
        audio_after_trim(untrimmed.clone(), Err(AppError::Message("bad wav".into()))),
        untrimmed
    );
}

#[test]
fn failed_paste_should_complete_with_a_warning_naming_the_session() {
    let outcome = paste_outcome("abc", Err(AppError::Message("dotool missing".into())));
    assert_eq!(
        outcome,
        CycleOutcome::CompletedWithWarning(
            "paste failed after clipboard write for session abc: dotool missing".into()
        )
    );
    assert_eq!(
        paste_task_outcome(Err(AppError::io("failed to open cue sound file", "denied".into()))),
        CycleOutcome::Failed("failed to open cue sound file: denied".into())
    );
    assert_eq!(clipboard_text("", true), "");
}

#[test]
fn actor_should_expose_initial_status() {
    let status = status_for(&AppConfig::default(), &AppState::Idle);
    assert_eq!(status.state, AppStateKind::Idle);
}

#[test]
fn actor_should_start_recording_before_playing_start_cue() {
    let decision = reduce(
        &AppState::Idle,
        &AppCommand::ToggleRecording {
            origin: CommandOrigin::CliControl,
        },
    )
    .expect("command should succeed");
    let start = decision
        .actions
        .iter()
        .position(|a| matches!(a, Action::StartRecording { .. }))
        .expect("start-recording");
    let cue = decision
        .actions
        .iter()
        .position(|a| matches!(a, Action::PlayStartCue))
        .expect("play-start-cue");
    assert!(start < cue);
}

#[test]
fn ready_report_should_move_matching_session_to_pasting() {
    let session_id = SessionId::from_u128(11);
    let state = AppState::Processing(ProcessingState { session_id });
    let event = InternalEvent::ProcessingReady { session_id, text: "héllo".into() };
    assert_eq!(
        apply_event(&state, &event),
        AppState::Pasting(PastingState { session_id, text_len: 6 })
    );
    let stale = InternalEvent::ProcessingReady { session_id: SessionId::from_u128(12), text: "x".into() };
    assert_eq!(apply_event(&state, &stale), state);
    let finished = InternalEvent::PasteFinished { session_id, outcome: CycleOutcome::Completed };
    assert_eq!(apply_event(&state, &finished), AppState::Idle);
    assert_eq!(apply_event(&state, &InternalEvent::IdleStreamStatusRefresh), state);
}

#[test]
fn actor_helpers_should_map_actions_and_status() {
    assert_eq!(tray_state_for(&Action::SetTrayProcessing), Some(TrayState::Processing));
    assert_eq!(tray_state_for(&Action::PlayStopCue), None);
    assert_eq!(exit_for(&Action::Restart), Some(ActorExit::Restart));
    assert_eq!(exit_for(&Action::SetTrayIdle), None);
    let status = status_for(
        &AppConfig::default(),
        &AppState::Processing(ProcessingState { session_id: SessionId::default() }),
    );
    assert_eq!(status.state, AppStateKind::Processing);
    let config = AppConfig::default();
    assert_eq!(
        record_spec_for(&config.audio),
        RecordSpec { sample_rate_hz: 16000, channels: 1, format: AudioFormat::Wav, max_duration_sec: 120 }
    );
    assert!(NullTrayPort.set_state(TrayState::Idle).is_ok());
    assert!(NullTrayPort.show_error("x").is_ok());
    let snapshot = ClipboardSnapshot::new("text/plain".into(), vec![104, 105]);
    assert_eq!(snapshot.mime_type, "text/plain");
    assert_eq!(snapshot.bytes, vec![104, 105]);
}

#[test]
fn input_stream_actions_should_switch_the_idle_stream() {
    assert_eq!(idle_stream_wanted(&Action::EnableInputStream, false), Some(true));
    assert_eq!(idle_stream_wanted(&Action::DisableInputStream, true), Some(false));
    assert_eq!(idle_stream_wanted(&Action::ToggleInputStream, true), Some(false));
    assert_eq!(idle_stream_wanted(&Action::ToggleInputStream, false), Some(true));
    assert_eq!(idle_stream_wanted(&Action::PlayStartCue, false), None);
}

#[test]
fn only_finished_steps_should_clean_up_and_only_matching_reports_start_paste() {
    assert!(needs_cleanup(&ProcessingStep::Finish(CycleOutcome::Completed)));
    assert!(!needs_cleanup(&ProcessingStep::Ready("t".into())));
    assert!(!needs_cleanup(&ProcessingStep::Enhance("t".into())));
    let session_id = SessionId::from_u128(4);
    let processing = AppState::Processing(ProcessingState { session_id });
    let ready = InternalEvent::ProcessingReady { session_id, text: "t".into() };
    assert!(starts_paste(&processing, &ready));
    assert!(!starts_paste(&AppState::Idle, &ready));
    let stale = InternalEvent::ProcessingReady { session_id: SessionId::from_u128(5), text: "t".into() };
    assert!(!starts_paste(&processing, &stale));
}

#[test]
fn a_failed_cycle_should_show_its_error_before_returning_to_idle() {
    let step = cycle_finished(CycleOutcome::Failed("boom".into()));
    assert_eq!(step.next_state, AppState::Idle);
    assert_eq!(
        step.effects,
        vec![
            ActorEffect::ShowError("boom".into()),
            ActorEffect::PublishStatus,
            ActorEffect::SetTray(TrayState::Idle),
        ]
    );
    for outcome in [CycleOutcome::Completed, CycleOutcome::CompletedWithWarning("short".into())] {
        let step = cycle_finished(outcome);
        assert_eq!(step.next_state, AppState::Idle);
        assert_eq!(
            step.effects,
            vec![ActorEffect::PublishStatus, ActorEffect::SetTray(TrayState::Idle)]
        );
    }
}

#[test]
fn a_capture_that_does_not_start_should_clean_up_and_show_the_error() {
    let session_id = SessionId::from_u128(9);
    let step = capture_start_failed(session_id, "no microphone".into());
    assert_eq!(step.next_state, AppState::Idle);
    assert_eq!(
        step.effects,
        vec![
            ActorEffect::PublishStatus,
            ActorEffect::SetTray(TrayState::Idle),
            ActorEffect::CleanupSession(session_id),
            ActorEffect::ShowError("no microphone".into()),
        ]
    );
}

#[test]
fn stopping_without_a_recording_and_shutting_down_should_reset_the_tray() {
    let stop = stop_without_recording();
    assert_eq!(stop.next_state, AppState::Idle);
    assert_eq!(stop.effects, vec![ActorEffect::PublishStatus, ActorEffect::SetTray(TrayState::Idle)]);
    let shutdown = shutdown_step();
    assert_eq!(shutdown.next_state, AppState::ShuttingDown);
    assert_eq!(
        shutdown.effects,
        vec![
            ActorEffect::AbortActiveRecording,
            ActorEffect::PublishStatus,
            ActorEffect::SetTray(TrayState::Idle),
        ]
    );
}
