use glossa::audio::AudioFormat;
use glossa::config::audio::{
    default_audio_enabled, default_keepalive_after_stop_seconds, default_latency_mode,
    AudioConfig, LatencyMode, WorkDir,
};
use glossa::config::input::{InputBackend, InputConfig, InputMode};
use glossa::config::llm::LlmConfig;
use glossa::config::logging::{filter_directive, LogLevel, LoggingConfig};
use glossa::config::paste::PasteConfig;
use glossa::config::provider::ProviderConfig;
use glossa::config::secret::SecretSource;
use glossa::config::ui::{UiConfig, UiTheme};
use glossa::config::{AppConfig, AutoValue, ControlConfig, SocketPath};
use glossa::error::CoreError;
use glossa::state::AppStateKind;
use glossa::status::{PasteMode, ProviderKind};

#[test]
fn default_llm_config_should_be_disabled() {
    let config = LlmConfig::default();
    assert!(!config.enabled);
    assert!(config.base_url.is_empty());
    assert!(config.model.is_empty());
    assert_eq!(config.api_key, SecretSource::Empty);
}

#[test]
fn disabled_llm_should_allow_empty_base_url_and_model() {
    let config = LlmConfig {
        enabled: false,
        base_url: String::new(),
        model: String::new(),
        api_key: SecretSource::Empty,
    };
    assert!(config.validate().is_ok());
}

#[test]
fn enabled_llm_should_require_non_empty_base_url() {
    let config = LlmConfig {
        enabled: true,
        base_url: String::new(),
        model: "gpt-4".into(),
        api_key: SecretSource::Empty,
    };
    let error = config.validate().expect_err("validation should fail");
    assert!(error.to_string().contains("base_url"));
}

#[test]
fn enabled_llm_should_require_non_empty_model() {
    let config = LlmConfig {
        enabled: true,
        base_url: "http://localhost:11434/v1".into(),
        model: String::new(),
        api_key: SecretSource::Empty,
    };
    let error = config.validate().expect_err("validation should fail");
    assert!(error.to_string().contains("model"));
}

#[test]
fn enabled_llm_should_accept_empty_api_key() {
    let config = LlmConfig {
        enabled: true,
        base_url: "http://localhost:11434/v1".into(),
        model: "llama3".into(),
        api_key: SecretSource::Empty,
    };
    assert!(config.validate().is_ok());
    assert_eq!(
        config
            .resolve_api_key(None)
            .expect("empty secret should resolve"),
        ""
    );
}

#[test]
fn default_config_should_use_dotoolc_for_paste_command() {
    assert_eq!(AppConfig::default().paste.type_command, "dotoolc");
}

#[test]
fn config_should_accept_backend_none() {
    let config = AppConfig {
        input: InputConfig {
            backend: InputBackend::Disabled,
            shortcut: "<Ctrl><Alt>space".into(),
            mode: InputMode::Toggle,
        },
        ..AppConfig::default()
    };

    assert!(config.validate().is_ok());
    assert!(!config.initial_status().portal_available);
}

#[test]
fn openai_compatible_should_require_base_url() {
    let config = AppConfig {
        provider: ProviderConfig {
            kind: ProviderKind::OpenAiCompatible,
            base_url: None,
            model: "whisper-1".into(),
            api_key: SecretSource::Literal("token".into()),
        },
        ..AppConfig::default()
    };

    let error = config.validate().expect_err("validation should fail");
    assert!(error.to_string().contains("base_url"));
}

#[test]
fn secret_source_should_parse_env_values() {
    let source = SecretSource::try_from("env:GROQ_API_KEY".to_string())
        .expect("env-backed secret should parse");
    assert_eq!(source.describe(), "env:GROQ_API_KEY");
}

#[test]
fn secret_source_should_accept_empty_literal() {
    let source = SecretSource::try_from(String::new()).expect("empty secret should parse");
    assert_eq!(source, SecretSource::Empty);
    assert_eq!(source.describe(), "empty");
    assert_eq!(source.resolve(None).expect("empty secret should resolve"), "");
}

#[test]
fn openai_compatible_should_allow_empty_api_key() {
    let config = AppConfig {
        provider: ProviderConfig {
            kind: ProviderKind::OpenAiCompatible,
            base_url: Some("https://example.com/openai/v1".into()),
            model: "whisper-1".into(),
            api_key: SecretSource::Empty,
        },
        ..AppConfig::default()
    };

    assert!(config.validate().is_ok());
    assert_eq!(
        config
            .resolve_api_key(None)
            .expect("empty secret should resolve"),
        ""
    );
}

#[test]
fn groq_should_reject_empty_api_key() {
    let config = AppConfig {
        provider: ProviderConfig {
            kind: ProviderKind::Groq,
            base_url: Some("https://api.groq.com/openai/v1".into()),
            model: "whisper-large-v3".into(),
            api_key: SecretSource::Empty,
        },
        ..AppConfig::default()
    };

    let error = config.validate().expect_err("validation should fail");
    assert!(error.to_string().contains("api_key"));
}

#[test]
fn config_should_reject_flac_until_supported() {
    let config = AppConfig {
        audio: AudioConfig {
            format: AudioFormat::Flac,
            ..AudioConfig::default()
        },
        ..AppConfig::default()
    };

    let error = config.validate().expect_err("validation should fail");
    assert!(error.to_string().contains("flac"));
}

#[test]
fn dark_theme_should_prefer_dark_icon_overrides() {
    let ui = UiConfig {
        theme: UiTheme::Dark,
        idle_dark_icon: Some("/tmp/idle_dark.png".into()),
        recording_dark_icon: Some("/tmp/recording_dark.png".into()),
        processing_dark_icon: Some("/tmp/processing_dark.png".into()),
        ..UiConfig::default()
    };

    assert_eq!(ui.idle_tray_icon().as_str(), "/tmp/idle_dark.png");
    assert_eq!(ui.recording_tray_icon().as_str(), "/tmp/recording_dark.png");
    assert_eq!(
        ui.processing_tray_icon().as_str(),
        "/tmp/processing_dark.png"
    );
}

#[test]
fn dark_theme_should_fallback_to_light_icons() {
    let ui = UiConfig {
        theme: UiTheme::Dark,
        idle_dark_icon: None,
        recording_dark_icon: None,
        processing_dark_icon: None,
        ..UiConfig::default()
    };

    assert_eq!(ui.idle_tray_icon(), &ui.idle_icon);
    assert_eq!(ui.recording_tray_icon(), &ui.recording_icon);
    assert_eq!(
        ui.processing_tray_icon(),
        ui.processing_icon.as_ref().unwrap()
    );
}

#[test]
fn light_theme_processing_icon_should_fall_back_to_idle_icon() {
    let ui = UiConfig {
        processing_icon: None,
        ..UiConfig::default()
    };
    assert_eq!(ui.processing_tray_icon(), "/path/to/idle.png");
    assert_eq!(ui.idle_tray_icon(), "/path/to/idle.png");
}

#[test]
fn dark_processing_icon_should_prefer_dark_idle_over_light_processing() {
    let ui = UiConfig {
        theme: UiTheme::Dark,
        processing_dark_icon: None,
        idle_dark_icon: Some("/tmp/idle_dark.png".into()),
        ..UiConfig::default()
    };
    assert_eq!(ui.processing_tray_icon(), "/tmp/idle_dark.png");
}

#[test]
fn default_config_should_validate() {
    let config = AppConfig::default();
    assert!(config.validate().is_ok());
    assert_eq!(config.provider.kind, ProviderKind::Groq);
    assert_eq!(config.provider.base_url.as_deref(), Some("https://api.groq.com/openai/v1"));
    assert_eq!(config.provider.model, "whisper-large-v3");
    assert_eq!(config.provider.api_key, SecretSource::Env("GROQ_API_KEY".into()));
    assert_eq!(config.paste.clipboard_command, "wl-copy");
    assert_eq!(config.paste.mode, PasteMode::CtrlV);
    assert_eq!(config.control.socket_path, SocketPath::Auto(AutoValue::Auto));
}

#[test]
fn initial_status_should_report_idle_provider_and_sources() {
    let status = AppConfig::default().initial_status();
    assert_eq!(status.state, AppStateKind::Idle);
    assert_eq!(status.provider, ProviderKind::Groq);
    assert!(status.tray_available);
    assert!(status.portal_available);
}

#[test]
fn audio_rules_should_be_reported_in_order() {
    let base = AudioConfig::default();
    let cases = [
        (
            AudioConfig { sample_rate_hz: 0, channels: 0, ..base.clone() },
            "invalid configuration: audio.sample_rate_hz must be greater than zero",
        ),
        (
            AudioConfig { channels: 0, ..base.clone() },
            "invalid configuration: audio.channels must be greater than zero",
        ),
        (
            AudioConfig { min_duration_ms: 0, ..base.clone() },
            "invalid configuration: audio.min_duration_ms must be greater than zero",
        ),
        (
            AudioConfig { max_duration_sec: 0, ..base.clone() },
            "invalid configuration: audio.max_duration_sec must be greater than zero",
        ),
        (
            AudioConfig { keepalive_after_stop_seconds: 0, ..base.clone() },
            "invalid configuration: audio.keepalive_after_stop_seconds must be greater than zero",
        ),
    ];
    for (config, message) in cases {
        assert_eq!(config.validate().expect_err("rule should fail").to_string(), message);
    }
    assert!(base.validate().is_ok());
}

#[test]
fn audio_defaults_should_match_documented_values() {
    assert!(default_audio_enabled());
    assert_eq!(default_latency_mode(), LatencyMode::Balanced);
    assert_eq!(default_keepalive_after_stop_seconds(), 60);
    let audio = AudioConfig::default();
    assert_eq!(audio.sample_rate_hz, 16_000);
    assert_eq!(audio.trim_threshold, 500);
    assert_eq!(audio.work_dir, WorkDir::Auto);
}

#[test]
fn provider_rules_should_be_reported() {
    let blank_model = ProviderConfig {
        kind: ProviderKind::Groq,
        base_url: None,
        model: " \t".into(),
        api_key: SecretSource::Env("KEY".into()),
    };
    assert_eq!(
        blank_model.validate().expect_err("blank model").to_string(),
        "invalid configuration: provider.model must not be empty"
    );
    let blank_url = ProviderConfig {
        base_url: Some("  ".into()),
        model: "m".into(),
        ..blank_model.clone()
    };
    assert_eq!(
        blank_url.validate().expect_err("blank url").to_string(),
        "invalid configuration: provider.base_url must not be empty when provided"
    );
    let compatible_empty_url = ProviderConfig {
        kind: ProviderKind::OpenAiCompatible,
        base_url: Some(String::new()),
        model: "m".into(),
        api_key: SecretSource::Empty,
    };
    assert_eq!(
        compatible_empty_url.validate().expect_err("empty url").to_string(),
        "invalid configuration: provider.base_url is required for openai-compatible"
    );
    let openai_no_url = ProviderConfig {
        kind: ProviderKind::OpenAi,
        base_url: None,
        model: "whisper-1".into(),
        api_key: SecretSource::Literal("k".into()),
    };
    assert!(openai_no_url.validate().is_ok());
}

#[test]
fn paste_and_logging_rules_should_be_reported() {
    let paste = PasteConfig {
        mode: PasteMode::ShiftInsert,
        append_space: true,
        clipboard_command: "wl-copy".into(),
        type_command: "   ".into(),
    };
    assert_eq!(
        paste.validate().expect_err("blank type command").to_string(),
        "invalid configuration: paste.type_command must not be empty"
    );
    let logging = LoggingConfig { level: LogLevel::Debug, journal: false, file: false };
    assert_eq!(
        logging.validate().expect_err("no sink").to_string(),
        "invalid configuration: logging must enable at least one sink"
    );
    assert_eq!(filter_directive(LogLevel::Debug), "debug");
    assert_eq!(filter_directive(LogLevel::Warn), "warn");
}

#[test]
fn ui_rules_should_name_the_empty_path() {
    let ui = UiConfig { recording_dark_icon: Some(String::new()), ..UiConfig::default() };
    assert_eq!(
        ui.validate().expect_err("empty dark icon").to_string(),
        "invalid configuration: ui recording_dark_icon must not be empty"
    );
    let ui = UiConfig { stop_sound: String::new(), ..UiConfig::default() };
    assert_eq!(
        ui.validate().expect_err("empty sound").to_string(),
        "invalid configuration: ui sound paths must not be empty"
    );
}

#[test]
fn control_socket_should_be_resolved() {
    let control = ControlConfig { enable_cli: true, socket_path: SocketPath::Custom(String::new()) };
    assert_eq!(
        control.validate().expect_err("empty socket").to_string(),
        "invalid configuration: control.socket_path must not be empty"
    );
    let auto = SocketPath::Auto(AutoValue::Auto);
    assert_eq!(
        auto.resolve(Some("/run/user/1000".into())).expect("runtime dir"),
        "/run/user/1000/glossa.sock"
    );
    assert_eq!(
        auto.resolve(Some("/run/user/1000/".into())).expect("trailing slash"),
        "/run/user/1000/glossa.sock"
    );
    assert_eq!(auto.resolve(Some("".into())).expect("empty dir"), "glossa.sock");
    assert_eq!(
        auto.resolve(None).expect_err("no runtime dir").to_string(),
        "invalid configuration: XDG_RUNTIME_DIR is required to resolve the runtime socket path"
    );
    assert_eq!(
        SocketPath::Custom("/tmp/g.sock".into()).resolve(None).expect("custom"),
        "/tmp/g.sock"
    );
}

#[test]
fn secret_sources_should_round_trip_and_resolve() {
    assert_eq!(
        SecretSource::try_from("env:".to_string()).expect_err("empty env name").to_string(),
        "invalid configuration: provider.api_key env source must not be empty"
    );
    let literal = SecretSource::try_from("sk-123".to_string()).expect("literal");
    assert_eq!(literal, SecretSource::Literal("sk-123".into()));
    assert_eq!(literal.describe(), "literal");
    assert_eq!(literal.clone().to_config_string(), "sk-123");
    let env = SecretSource::Env("LLM_KEY".into());
    assert_eq!(env.clone().to_config_string(), "env:LLM_KEY");
    assert_eq!(env.resolve(Some("v".into())).expect("set"), "v");
    assert_eq!(
        env.resolve(None).expect_err("unset").to_string(),
        "missing secret value from env:LLM_KEY"
    );
    assert_eq!(
        SecretSource::try_from("env:LLM_KEY".to_string()).expect("env"),
        env
    );
}

#[test]
fn work_dir_should_parse_auto_paths_and_reject_blank() {
    assert_eq!(WorkDir::try_from("auto".to_string()), Ok(WorkDir::Auto));
    assert_eq!(
        WorkDir::try_from("/var/tmp".to_string()),
        Ok(WorkDir::Path("/var/tmp".into()))
    );
    assert_eq!(
        WorkDir::try_from("  ".to_string()),
        Err("audio.work_dir must not be empty".to_string())
    );
    assert_eq!(WorkDir::Auto.to_config_string(), "auto");
    assert_eq!(WorkDir::Path("/x".into()).to_config_string(), "/x");
}

#[test]
fn invalid_state_transition_should_read_like_its_debug_form() {
    let error = CoreError::InvalidStateTransition {
        from: AppStateKind::Processing,
        command: glossa::command::AppCommand::ToggleRecording {
            origin: glossa::command::CommandOrigin::CliControl,
        },
    };
    assert_eq!(
        error.to_string(),
        "invalid state transition from Processing using ToggleRecording { origin: CliControl }"
    );
    assert_eq!(
        CoreError::Toml("bad".into()).to_string(),
        "failed to parse TOML configuration: bad"
    );
}

#[test]
fn parsed_configs_should_be_accepted_only_when_valid() {
    let config = AppConfig::default();
    assert_eq!(AppConfig::from_parsed(config.clone()), Ok(config.clone()));
    let mut broken = config;
    broken.logging.journal = false;
    assert_eq!(
        AppConfig::from_parsed(broken).expect_err("no sink").to_string(),
        "invalid configuration: logging must enable at least one sink"
    );
}
