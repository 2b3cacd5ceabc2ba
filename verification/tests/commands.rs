use glossa::actor::ActorExit;
use glossa::cli::{ipc_request_for_ctl_command, CtlCommand, IpcRequest, ServiceCommand};
use glossa::config::input::InputBackend;
use glossa::config::AppConfig;
use glossa::daemon::{
    format_fatal_error_message, restarts_after, starts_ipc_server, starts_portal_source,
    FATAL_ERROR_TITLE,
};
use glossa::service::{build_systemctl_args, ensure_systemctl_succeeded, systemctl_action};

#[test]
fn build_systemctl_args_should_target_user_glossa_service_for_restart() {
    assert_eq!(
        build_systemctl_args(ServiceCommand::Restart),
        ["--user", "restart", "glossa"]
    );
}

#[test]
fn ensure_systemctl_succeeded_should_include_stderr_on_failure() {
    let error = ensure_systemctl_succeeded(
        ServiceCommand::Start,
        false,
        b"Unit glossa.service not found",
    )
    .expect_err("failed systemctl call should return an error");

    assert_eq!(
        error.to_string(),
        "`systemctl --user start glossa` failed: Unit glossa.service not found"
    );
}

#[test]
fn ensure_systemctl_succeeded_should_return_generic_error_without_stderr() {
    let error = ensure_systemctl_succeeded(ServiceCommand::Stop, false, b"")
        .expect_err("failed systemctl call without stderr should return an error");

    assert_eq!(error.to_string(), "`systemctl --user stop glossa` failed");
}

#[test]
fn systemctl_stderr_should_be_trimmed_and_decoded_leniently() {
    assert_eq!(
        ensure_systemctl_succeeded(ServiceCommand::Restart, false, b"  bad \xff unit\n"),
        Err("`systemctl --user restart glossa` failed: bad \u{fffd} unit".to_string())
    );
    assert_eq!(ensure_systemctl_succeeded(ServiceCommand::Restart, true, b"ignored"), Ok(()));
    assert_eq!(systemctl_action(ServiceCommand::Stop), "stop");
}

#[test]
fn format_fatal_error_message_should_include_error_chain() {
    let chain = vec![
        "command failed".to_string(),
        "missing secret value from env:GROQ_API_KEY".to_string(),
    ];

    let message = format_fatal_error_message(&chain);

    assert!(message.contains("Glossa encountered a fatal error and exited."));
    assert!(message.contains("command failed"));
    assert!(message.contains("missing secret value from env:GROQ_API_KEY"));
    assert_eq!(
        message,
        "Glossa encountered a fatal error and exited.\n\ncommand failed: missing secret value from env:GROQ_API_KEY"
    );
    assert_eq!(FATAL_ERROR_TITLE, "Glossa fatal error");
}

#[test]
fn ctl_stream_should_send_stream_ipc_request() {
    assert_eq!(
        ipc_request_for_ctl_command(CtlCommand::Stream),
        IpcRequest::Stream
    );
    assert_eq!(ipc_request_for_ctl_command(CtlCommand::Toggle), IpcRequest::Toggle);
    assert_eq!(ipc_request_for_ctl_command(CtlCommand::Shutdown), IpcRequest::Shutdown);
}

#[test]
fn daemon_loop_decisions_should_follow_config_and_exit() {
    let mut config = AppConfig::default();
    assert!(starts_ipc_server(&config));
    assert!(starts_portal_source(&config));
    config.control.enable_cli = false;
    config.input.backend = InputBackend::Disabled;
    assert!(!starts_ipc_server(&config));
    assert!(!starts_portal_source(&config));
    assert!(restarts_after(ActorExit::Restart));
    assert!(!restarts_after(ActorExit::Shutdown));
}
