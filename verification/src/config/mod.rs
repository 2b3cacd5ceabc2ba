//! The daemon's configuration and the rules it must satisfy.

pub mod audio;
pub mod input;
pub mod llm;
pub mod logging;
pub mod paste;
pub mod provider;
pub mod secret;
pub mod ui;

use vstd::prelude::*;

use self::audio::{audio_problem, AudioConfig};
use self::input::{InputBackend, InputConfig, InputMode};
use self::llm::{llm_problem, LlmConfig};
use self::logging::{logging_problem, LogLevel, LoggingConfig};
use self::paste::{paste_problem, PasteConfig};
use self::provider::{provider_problem, ProviderConfig};
use self::secret::{SecretSource, SecretView};
use self::ui::{ui_problem, UiConfig};
use crate::error::{reports, CoreError, CoreErrorView};
use crate::state::AppStateKind;
use crate::status::{AppStatus, PasteMode, ProviderKind};
use crate::text::owned;

verus! {

/// Marker used for `"auto"` configuration values.
#[derive(Clone, Copy, Debug, PartialEq, Eq, Hash, Structural)]
pub enum AutoValue {
    Auto,
}

/// Socket location for the CLI control channel: chosen at runtime, or a
/// configured UTF-8 path.
#[derive(Clone, Debug, PartialEq, Eq)]
pub enum SocketPath {
    Auto(AutoValue),
    Custom(String),
}

/// IPC and control settings for the daemon.
#[derive(Clone, Debug, PartialEq, Eq)]
pub struct ControlConfig {
    pub enable_cli: bool,
    pub socket_path: SocketPath,
}

/// The rule that a control configuration breaks, as its message.
pub open spec fn control_problem(c: ControlConfig) -> Option<Seq<char>> {
    if c.socket_path matches SocketPath::Custom(p) && p@.len() == 0 {
        Some("control.socket_path must not be empty"@)
    } else {
        None
    }
}

impl ControlConfig {
    /// A custom socket path must not be empty.
    pub fn validate(&self) -> (r: Result<(), CoreError>)
        ensures
            reports(r, control_problem(*self)),
    {
        if let SocketPath::Custom(path) = &self.socket_path {
            if path.as_str().is_empty() {
                return Err(CoreError::InvalidConfig(owned("control.socket_path must not be empty")));
            }
        }
        Ok(())
    }
}

/// `base` with `child` adjoined, as `camino::Utf8Path::join` (that is, std's
/// `PathBuf::push`) does on Unix: an absolute child replaces the base;
/// otherwise one `/` separates the two, unless the base is empty or already
/// ends in `/`.
pub open spec fn joined_path(base: Seq<char>, child: Seq<char>) -> Seq<char> {
    if child.len() > 0 && child[0] == '/' {
        child
    } else if base.len() > 0 && base.last() != '/' {
        base + seq!['/'] + child
    } else {
        base + child
    }
}

/// `camino::Utf8Path::join`, read back as a `String`: the paths adjoined as
/// `joined_path` says.
#[verifier::external_body]
fn join_path(base: &str, child: &str) -> (p: String)
    ensures
        p@ == joined_path(base@, child@),
{
    camino::Utf8Path::new(base).join(child).into_string()
}

/// The name of the daemon's socket inside the runtime directory.
pub open spec fn socket_file_name() -> Seq<char> {
    "glossa.sock"@
}

/// Where the control socket lives, given the runtime directory when the
/// environment names one.
pub open spec fn socket_location(p: SocketPath, runtime_dir: Option<Seq<char>>) -> Result<
    Seq<char>,
    CoreErrorView,
> {
    match p {
        SocketPath::Auto(_) => match runtime_dir {
            Some(d) => Ok(joined_path(d, socket_file_name())),
            None => Err(
                CoreErrorView::InvalidConfig(
                    "XDG_RUNTIME_DIR is required to resolve the runtime socket path"@,
                ),
            ),
        },
        SocketPath::Custom(path) => Ok(path@),
    }
}

impl SocketPath {
    /// Resolves the configured socket path, given the value of
    /// `XDG_RUNTIME_DIR` when it is set: an automatic path is `glossa.sock`
    /// inside that directory.
    pub fn resolve(&self, runtime_dir: Option<String>) -> (r: Result<String, CoreError>)
        ensures
            match socket_location(
                *self,
                match runtime_dir {
                    Some(d) => Some(d@),
                    None => None,
                },
            ) {
                Ok(p) => r matches Ok(x) && x@ == p,
                Err(e) => r matches Err(x) && x@ == e,
            },
            runtime_dir matches Some(d) ==> (self is Auto && d@.len() > 0 && d@.last() != '/'
                ==> (r matches Ok(x) && x@ == d@ + "/glossa.sock"@)),
    {
        proof {
            reveal_strlit("glossa.sock");
            reveal_strlit("/glossa.sock");
            if runtime_dir is Some {
                let d = runtime_dir->0@;
                assert(d + seq!['/'] + "glossa.sock"@ =~= d + "/glossa.sock"@);
            }
        }
        match self {
            SocketPath::Auto(_) => match runtime_dir {
                Some(dir) => Ok(join_path(dir.as_str(), "glossa.sock")),
                None => Err(
                    CoreError::InvalidConfig(
                        owned("XDG_RUNTIME_DIR is required to resolve the runtime socket path"),
                    ),
                ),
            },
            SocketPath::Custom(path) => Ok(owned(path.as_str())),
        }
    }
}

/// TOML-backed Glossa application configuration.
#[derive(Clone, Debug, PartialEq, Eq)]
pub struct AppConfig {
    pub input: InputConfig,
    pub control: ControlConfig,
    pub provider: ProviderConfig,
    pub audio: AudioConfig,
    pub paste: PasteConfig,
    pub ui: UiConfig,
    pub logging: LoggingConfig,
    pub llm: LlmConfig,
}

/// The first rule that a configuration breaks, section by section in the
/// order input, control, provider, audio, paste, ui, logging, llm.
pub open spec fn config_problem(c: AppConfig) -> Option<Seq<char>> {
    if control_problem(c.control) is Some {
        control_problem(c.control)
    } else if provider_problem(c.provider) is Some {
        provider_problem(c.provider)
    } else if audio_problem(c.audio) is Some {
        audio_problem(c.audio)
    } else if paste_problem(c.paste) is Some {
        paste_problem(c.paste)
    } else if ui_problem(c.ui) is Some {
        ui_problem(c.ui)
    } else if logging_problem(c.logging) is Some {
        logging_problem(c.logging)
    } else {
        llm_problem(c.llm)
    }
}

/// The status that a configuration reports while the daemon is idle.
pub open spec fn initial_status_of(c: AppConfig) -> AppStatus {
    AppStatus {
        state: AppStateKind::Idle,
        provider: c.provider.kind,
        tray_available: c.ui.tray,
        portal_available: c.input.backend == InputBackend::Portal,
    }
}

impl AppConfig {
    /// Validates every section, reporting the first rule broken.
    pub fn validate(&self) -> (r: Result<(), CoreError>)
        ensures
            reports(r, config_problem(*self)),
    {
        let r = self.input.validate();
        if r.is_err() {
            return r;
        }
        let r = self.control.validate();
        if r.is_err() {
            return r;
        }
        let r = self.provider.validate();
        if r.is_err() {
            return r;
        }
        let r = self.audio.validate();
        if r.is_err() {
            return r;
        }
        let r = self.paste.validate();
        if r.is_err() {
            return r;
        }
        let r = self.ui.validate();
        if r.is_err() {
            return r;
        }
        let r = self.logging.validate();
        if r.is_err() {
            return r;
        }
        self.llm.validate()
    }

    /// Accepts a configuration read from a file: the configuration itself
    /// when it passes validation, else the first rule it breaks.
    pub fn from_parsed(config: AppConfig) -> (r: Result<AppConfig, CoreError>)
        ensures
            config_problem(config) is None ==> r == Ok::<AppConfig, CoreError>(config),
            config_problem(config) matches Some(m) ==> (r matches Err(e) && e@
                == CoreErrorView::InvalidConfig(m)),
    {
        match config.validate() {
            Ok(()) => Ok(config),
            Err(e) => Err(e),
        }
    }

    /// Resolves the provider API key, given the value of its environment
    /// variable when the key comes from one and that variable is set.
    pub fn resolve_api_key(&self, env_value: Option<String>) -> (r: Result<String, CoreError>)
        ensures
            secret::resolved_as(
                self.provider.api_key@,
                match env_value {
                    Some(v) => Some(v@),
                    None => None,
                },
                r,
            ),
    {
        self.provider.api_key.resolve(env_value)
    }

    /// Builds a minimal runtime status snapshot from static configuration.
    pub fn initial_status(&self) -> (s: AppStatus)
        ensures
            s == initial_status_of(*self),
    {
        AppStatus {
            state: AppStateKind::Idle,
            provider: self.provider.kind,
            tray_available: self.ui.tray,
            portal_available: match self.input.backend {
                InputBackend::Portal => true,
                InputBackend::Disabled => false,
            },
        }
    }
}

/// The configuration used when no file is given.
pub open spec fn is_default_config(c: AppConfig) -> bool {
    &&& c.input.backend == InputBackend::Portal
    &&& c.input.shortcut@ == "<Ctrl><Alt>space"@
    &&& c.input.mode == InputMode::Toggle
    &&& c.control.enable_cli
    &&& c.control.socket_path == SocketPath::Auto(AutoValue::Auto)
    &&& c.provider.kind == ProviderKind::Groq
    &&& ui::opt_path(c.provider.base_url) == Some("https://api.groq.com/openai/v1"@)
    &&& c.provider.model@ == "whisper-large-v3"@
    &&& c.provider.api_key@ == SecretView::Env("GROQ_API_KEY"@)
    &&& audio::is_default_audio(c.audio)
    &&& c.paste.mode == PasteMode::CtrlV
    &&& !c.paste.append_space
    &&& c.paste.clipboard_command@ == "wl-copy"@
    &&& c.paste.type_command@ == "dotoolc"@
    &&& ui::is_default_ui(c.ui)
    &&& c.logging == (LoggingConfig { level: LogLevel::Info, journal: true, file: false })
    &&& !c.llm.enabled
    &&& c.llm.base_url@.len() == 0
    &&& c.llm.model@.len() == 0
    &&& c.llm.api_key@ is Empty
}

impl Default for AppConfig {
    fn default() -> (c: AppConfig)
        ensures
            is_default_config(c),
    {
        AppConfig {
            input: InputConfig::default(),
            control: ControlConfig {
                enable_cli: true,
                socket_path: SocketPath::Auto(AutoValue::Auto),
            },
            provider: ProviderConfig {
                kind: ProviderKind::Groq,
                base_url: Some(owned("https://api.groq.com/openai/v1")),
                model: owned("whisper-large-v3"),
                api_key: SecretSource::Env(owned("GROQ_API_KEY")),
            },
            audio: AudioConfig::default(),
            paste: PasteConfig {
                mode: PasteMode::CtrlV,
                append_space: false,
                clipboard_command: owned("wl-copy"),
                type_command: owned("dotoolc"),
            },
            ui: UiConfig::default(),
            logging: LoggingConfig::default(),
            llm: LlmConfig::default(),
        }
    }
}

/// The default configuration passes validation.
pub proof fn law_default_config_is_valid(c: AppConfig)
    requires
        is_default_config(c),
    ensures
        config_problem(c) is None,
{
    reveal_strlit("whisper-large-v3");
    reveal_strlit("https://api.groq.com/openai/v1");
    reveal_strlit("wl-copy");
    reveal_strlit("dotoolc");
    reveal_strlit("/path/to/idle.png");
    reveal_strlit("/path/to/recording.png");
    reveal_strlit("/path/to/processing.png");
    reveal_strlit("/path/to/idle_dark.png");
    reveal_strlit("/path/to/recording_dark.png");
    reveal_strlit("/path/to/processing_dark.png");
    reveal_strlit("/path/to/start.wav");
    reveal_strlit("/path/to/stop.wav");
    crate::text::lemma_trim_keeps_non_ws_start(c.provider.model@);
    crate::text::lemma_trim_keeps_non_ws_start(c.provider.base_url->0@);
    crate::text::lemma_trim_keeps_non_ws_start(c.paste.clipboard_command@);
    crate::text::lemma_trim_keeps_non_ws_start(c.paste.type_command@);
}

/// A configuration is valid exactly when every section is.
pub proof fn law_valid_config_has_valid_sections(c: AppConfig)
    ensures
        config_problem(c) is None <==> {
            &&& control_problem(c.control) is None
            &&& provider_problem(c.provider) is None
            &&& audio_problem(c.audio) is None
            &&& paste_problem(c.paste) is None
            &&& ui_problem(c.ui) is None
            &&& logging_problem(c.logging) is None
            &&& llm_problem(c.llm) is None
        },
{
}

/// A control configuration passes unless it names a custom socket path that
/// is empty.
pub proof fn law_control_socket_path_must_not_be_empty(c: ControlConfig)
    ensures
        control_problem(c) is None <==> !(c.socket_path matches SocketPath::Custom(p) && p@.len()
            == 0),
{
}

} // verus!
