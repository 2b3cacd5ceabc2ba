use glossa::audio::CapturedAudio;
use glossa::capture::{candidate_failure, preferred_stream_failure, StreamPurpose};
use glossa::capture::{
    buffer_size_label, first_input_wait_result, input_config_candidates, keepalive_startup_result,
    u16_to_i16, BufferChoice, FirstInputGate, IdleKeepalive, StartupOutcome, StreamSettings,
    WaitOutcome,
};
use glossa::ids::SessionId;
use glossa::trim::{is_trimmable, loud_span, silent_capture, trimmed_wav_path, LoudSpan, WavSilenceTrimmer};

#[test]
fn send_converted_should_signal_first_input_buffer_once() {
    let mut gate = FirstInputGate::new();

    assert!(gate.observe(2), "first input buffer should signal readiness");
    assert!(
        !gate.observe(1),
        "subsequent input buffers should not signal readiness again"
    );
}

#[test]
fn empty_buffers_should_not_signal_readiness() {
    let mut gate = FirstInputGate::new();
    assert!(!gate.observe(0));
    assert!(!gate.notified);
    assert!(gate.observe(3));
}

#[test]
fn input_config_candidates_should_prefer_fixed_low_latency_buffers() {
    let base_config = StreamSettings {
        channels: 1,
        sample_rate_hz: 16_000,
        buffer: BufferChoice::Default,
    };

    let candidates = input_config_candidates(&base_config);

    assert_eq!(candidates.len(), 3);
    assert_eq!(candidates[0].buffer, BufferChoice::Fixed(512));
    assert_eq!(candidates[1].buffer, BufferChoice::Fixed(1024));
    assert_eq!(candidates[2].buffer, BufferChoice::Default);
}

#[test]
fn idle_keepalive_controller_should_start_and_stop_without_recording_writer() {
    let mut controller = IdleKeepalive::new();
    let mut started = 0;

    controller.cancel_timeout();
    if controller.needs_start() {
        started += 1;
        controller.mark_started();
    }
    controller.cancel_timeout();
    if controller.needs_start() {
        started += 1;
        controller.mark_started();
    }
    assert!(controller.active);
    assert_eq!(started, 1);

    controller.cancel_timeout();
    controller.stop();
    assert!(!controller.active);
}

#[test]
fn idle_keepalive_controller_should_release_stream_after_timeout() {
    let mut controller = IdleKeepalive::new();
    controller.mark_started();
    let token = controller.schedule_timeout();
    assert!(controller.active);
    if controller.timeout_applies(token) {
        controller.stop();
    }
    assert!(!controller.active);
}

#[test]
fn cancelled_keepalive_timeout_should_not_release_stream() {
    let mut controller = IdleKeepalive::new();
    controller.mark_started();
    let token = controller.schedule_timeout();
    controller.cancel_timeout();
    assert!(!controller.timeout_applies(token));
    let mut wrapped = IdleKeepalive { active: true, generation: u64::MAX };
    let token = wrapped.schedule_timeout();
    assert_eq!(token, 0);
    assert!(wrapped.timeout_applies(token));
}

#[test]
fn u16_samples_should_be_centred_on_zero() {
    assert_eq!(u16_to_i16(0), i16::MIN);
    assert_eq!(u16_to_i16(32768), 0);
    assert_eq!(u16_to_i16(u16::MAX), i16::MAX);
}

#[test]
fn wait_results_should_report_time_or_reason() {
    assert_eq!(
        first_input_wait_result(WaitOutcome::Received { elapsed_ms: 12 }, 2000).ok(),
        Some(12)
    );
    assert_eq!(
        first_input_wait_result(WaitOutcome::TimedOut, 2000).err().map(|e| e.to_string()),
        Some("audio input stream did not produce samples within 2000 ms".to_string())
    );
    assert_eq!(
        first_input_wait_result(WaitOutcome::Disconnected, 2000).err().map(|e| e.to_string()),
        Some("audio input stream stopped before producing samples".to_string())
    );
    assert_eq!(
        keepalive_startup_result(StartupOutcome::TimedOut, 6000),
        Err("audio input keepalive stream did not start within 6000 ms".to_string())
    );
    assert_eq!(keepalive_startup_result(StartupOutcome::Started, 6000), Ok(()));
    assert_eq!(
        keepalive_startup_result(StartupOutcome::Failed("no device".into()), 6000),
        Err("no device".to_string())
    );
    assert_eq!(buffer_size_label(BufferChoice::Fixed(1024)), "1024");
    assert_eq!(buffer_size_label(BufferChoice::Default), "default");
}

#[test]
fn loud_span_should_cover_first_to_last_loud_frame() {
    // stereo frames: silent, loud on right, silent, loud on left, silent
    let samples = vec![0, 10, 3, -900, 0, 0, 501, 2, -5, 4, 77];
    let span = loud_span(&samples, 2, 500).expect("loud frames");
    assert_eq!(
        span,
        LoudSpan { first_frame: 1, last_frame: 3, sample_start: 2, sample_end: 8 }
    );
}

#[test]
fn silent_recordings_should_have_no_loud_span() {
    let samples = vec![0, 500, -500, 12];
    assert_eq!(loud_span(&samples, 1, 500), None);
    let mono = vec![0, 0, 600];
    assert_eq!(
        loud_span(&mono, 1, 500),
        Some(LoudSpan { first_frame: 2, last_frame: 2, sample_start: 2, sample_end: 3 })
    );
    assert_eq!(WavSilenceTrimmer::default().threshold, 500);
    assert_eq!(WavSilenceTrimmer::new(42).threshold, 42);
}

#[test]
fn the_most_negative_sample_should_be_loud() {
    assert_eq!(
        loud_span(&vec![i16::MIN], 1, 500),
        Some(LoudSpan { first_frame: 0, last_frame: 0, sample_start: 0, sample_end: 1 })
    );
    let stereo = vec![0, 0, 3, i16::MIN, 0, 0];
    assert_eq!(
        loud_span(&stereo, 2, 32767),
        Some(LoudSpan { first_frame: 1, last_frame: 1, sample_start: 2, sample_end: 4 })
    );
    assert_eq!(loud_span(&stereo, 2, 32768), None);
}

#[test]
fn trimming_paths_should_follow_the_recording() {
    assert!(is_trimmable("/tmp/a/b.wav"));
    assert!(!is_trimmable("/tmp/a/b.flac"));
    assert!(!is_trimmable("/tmp/a/noext"));
    assert_eq!(trimmed_wav_path("/tmp/a/rec.wav"), "/tmp/a/rec-trimmed.wav");
    let input = CapturedAudio {
        session_id: SessionId::from_u128(2),
        path: "/tmp/a/rec.wav".into(),
        duration_ms: 900,
        sample_rate_hz: 16000,
        channels: 1,
    };
    let silent = silent_capture(&input);
    assert_eq!(silent.duration_ms, 0);
    assert_eq!(silent.path, input.path);
}

#[test]
fn failed_stream_configurations_should_be_reported_together() {
    let settings = StreamSettings { channels: 2, sample_rate_hz: 48000, buffer: BufferChoice::Fixed(512) };
    let first = candidate_failure(&settings, "busy");
    assert_eq!(first, "48000 Hz/2 ch/512 buffer: busy");
    let second = candidate_failure(&StreamSettings { buffer: BufferChoice::Default, ..settings }, "gone");
    assert_eq!(
        preferred_stream_failure(StreamPurpose::Recording, &vec![first.clone(), second]),
        "failed to build input stream with preferred configs: 48000 Hz/2 ch/512 buffer: busy; 48000 Hz/2 ch/default buffer: gone"
    );
    assert_eq!(
        preferred_stream_failure(StreamPurpose::Keepalive, &vec![first]),
        "failed to build input keepalive stream with preferred configs: 48000 Hz/2 ch/512 buffer: busy"
    );
}
