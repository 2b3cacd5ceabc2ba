//! Errors of configuration, the state machine and the application layer, and
//! the text each one reads as.

use vstd::prelude::*;

use crate::command::{AppCommand, CommandOrigin};
use crate::state::AppStateKind;
use crate::text::{owned, push_str};

verus! {

/// Shared error type for config/domain validation.
#[derive(Clone, Debug, PartialEq, Eq)]
pub enum CoreError {
    InvalidConfig(String),
    InvalidStateTransition { from: AppStateKind, command: AppCommand },
    MissingSecret { secret_source: String },
    /// A TOML document that could not be parsed, with the parser's message.
    Toml(String),
}

/// `CoreError` with its strings taken as character sequences.
pub enum CoreErrorView {
    InvalidConfig(Seq<char>),
    InvalidStateTransition { from: AppStateKind, command: AppCommand },
    MissingSecret(Seq<char>),
    Toml(Seq<char>),
}

impl View for CoreError {
    type V = CoreErrorView;

    open spec fn view(&self) -> CoreErrorView {
        match self {
            CoreError::InvalidConfig(m) => CoreErrorView::InvalidConfig(m@),
            CoreError::InvalidStateTransition { from, command } => CoreErrorView::InvalidStateTransition {
                from: *from,
                command: *command,
            },
            CoreError::MissingSecret { secret_source } => CoreErrorView::MissingSecret(
                secret_source@,
            ),
            CoreError::Toml(m) => CoreErrorView::Toml(m@),
        }
    }
}

/// `r` is `Ok` when `problem` is `None`, and otherwise the configuration
/// error whose message is `problem`.
pub open spec fn reports(r: Result<(), CoreError>, problem: Option<Seq<char>>) -> bool {
    match problem {
        None => r is Ok,
        Some(m) => r matches Err(e) && e@ == CoreErrorView::InvalidConfig(m),
    }
}

/// The name that `Debug` gives a state kind.
pub open spec fn kind_name(k: AppStateKind) -> Seq<char> {
    match k {
        AppStateKind::Idle => "Idle"@,
        AppStateKind::Recording => "Recording"@,
        AppStateKind::Processing => "Processing"@,
        AppStateKind::Pasting => "Pasting"@,
        AppStateKind::ShuttingDown => "ShuttingDown"@,
    }
}

/// The name that `Debug` gives a command origin.
pub open spec fn origin_name(o: CommandOrigin) -> Seq<char> {
    match o {
        CommandOrigin::PortalShortcut => "PortalShortcut"@,
        CommandOrigin::CliControl => "CliControl"@,
        CommandOrigin::TrayMenu => "TrayMenu"@,
        CommandOrigin::EscapeKey => "EscapeKey"@,
        CommandOrigin::Internal => "Internal"@,
    }
}

/// The variant name and origin of a command.
pub open spec fn command_parts(c: AppCommand) -> (Seq<char>, CommandOrigin) {
    match c {
        AppCommand::StartRecording { origin } => ("StartRecording"@, origin),
        AppCommand::StopRecording { origin } => ("StopRecording"@, origin),
        AppCommand::ToggleRecording { origin } => ("ToggleRecording"@, origin),
        AppCommand::CancelRecording { origin } => ("CancelRecording"@, origin),
        AppCommand::ToggleInputStream { origin } => ("ToggleInputStream"@, origin),
        AppCommand::EnableInputStream { origin } => ("EnableInputStream"@, origin),
        AppCommand::DisableInputStream { origin } => ("DisableInputStream"@, origin),
        AppCommand::Restart { origin } => ("Restart"@, origin),
        AppCommand::Shutdown { origin } => ("Shutdown"@, origin),
    }
}

/// What `Debug` writes for a command, such as
/// `ToggleRecording { origin: CliControl }`.
pub open spec fn command_text(c: AppCommand) -> Seq<char> {
    command_parts(c).0 + " { origin: "@ + origin_name(command_parts(c).1) + " }"@
}

/// The message of a core error.
pub open spec fn core_error_text(e: CoreErrorView) -> Seq<char> {
    match e {
        CoreErrorView::InvalidConfig(m) => "invalid configuration: "@ + m,
        CoreErrorView::InvalidStateTransition { from, command } => "invalid state transition from "@
            + kind_name(from) + " using "@ + command_text(command),
        CoreErrorView::MissingSecret(s) => "missing secret value from "@ + s,
        CoreErrorView::Toml(m) => "failed to parse TOML configuration: "@ + m,
    }
}

fn kind_name_str(k: AppStateKind) -> (s: &'static str)
    ensures
        s@ == kind_name(k),
{
    match k {
        AppStateKind::Idle => "Idle",
        AppStateKind::Recording => "Recording",
        AppStateKind::Processing => "Processing",
        AppStateKind::Pasting => "Pasting",
        AppStateKind::ShuttingDown => "ShuttingDown",
    }
}

fn origin_name_str(o: CommandOrigin) -> (s: &'static str)
    ensures
        s@ == origin_name(o),
{
    match o {
        CommandOrigin::PortalShortcut => "PortalShortcut",
        CommandOrigin::CliControl => "CliControl",
        CommandOrigin::TrayMenu => "TrayMenu",
        CommandOrigin::EscapeKey => "EscapeKey",
        CommandOrigin::Internal => "Internal",
    }
}

/// What `Debug` writes for a command.
pub fn command_debug_text(c: AppCommand) -> (s: String)
    ensures
        s@ == command_text(c),
{
    let (name, origin): (&'static str, CommandOrigin) = match c {
        AppCommand::StartRecording { origin } => ("StartRecording", origin),
        AppCommand::StopRecording { origin } => ("StopRecording", origin),
        AppCommand::ToggleRecording { origin } => ("ToggleRecording", origin),
        AppCommand::CancelRecording { origin } => ("CancelRecording", origin),
        AppCommand::ToggleInputStream { origin } => ("ToggleInputStream", origin),
        AppCommand::EnableInputStream { origin } => ("EnableInputStream", origin),
        AppCommand::DisableInputStream { origin } => ("DisableInputStream", origin),
        AppCommand::Restart { origin } => ("Restart", origin),
        AppCommand::Shutdown { origin } => ("Shutdown", origin),
    };
    let mut s = owned(name);
    push_str(&mut s, " { origin: ");
    push_str(&mut s, origin_name_str(origin));
    push_str(&mut s, " }");
    s
}

impl CoreError {
    /// The error's message, as its `Display` reads.
    pub fn to_string(&self) -> (s: String)
        ensures
            s@ == core_error_text(self@),
    {
        match self {
            CoreError::InvalidConfig(m) => {
                let mut s = owned("invalid configuration: ");
                push_str(&mut s, m.as_str());
                s
            },
            CoreError::InvalidStateTransition { from, command } => {
                let mut s = owned("invalid state transition from ");
                push_str(&mut s, kind_name_str(*from));
                push_str(&mut s, " using ");
                let c = command_debug_text(*command);
                push_str(&mut s, c.as_str());
                s
            },
            CoreError::MissingSecret { secret_source } => {
                let mut s = owned("missing secret value from ");
                push_str(&mut s, secret_source.as_str());
                s
            },
            CoreError::Toml(m) => {
                let mut s = owned("failed to parse TOML configuration: ");
                push_str(&mut s, m.as_str());
                s
            },
        }
    }
}

/// Application-layer error spanning orchestration and adapter failures.
#[derive(Clone, Debug, PartialEq, Eq)]
pub enum AppError {
    Core(CoreError),
    /// An I/O failure: what was being done, and the operating system's message.
    Io { context: &'static str, source: String },
    Message(String),
}

/// `AppError` with its strings taken as character sequences.
pub enum AppErrorView {
    Core(CoreErrorView),
    Io { context: Seq<char>, source: Seq<char> },
    Message(Seq<char>),
}

impl View for AppError {
    type V = AppErrorView;

    open spec fn view(&self) -> AppErrorView {
        match self {
            AppError::Core(e) => AppErrorView::Core(e@),
            AppError::Io { context, source } => AppErrorView::Io {
                context: context@,
                source: source@,
            },
            AppError::Message(m) => AppErrorView::Message(m@),
        }
    }
}

/// The message of an application error.
pub open spec fn app_error_text(e: AppErrorView) -> Seq<char> {
    match e {
        AppErrorView::Core(c) => core_error_text(c),
        AppErrorView::Io { context, source } => context + ": "@ + source,
        AppErrorView::Message(m) => m,
    }
}

impl AppError {
    /// Creates an opaque application error message.
    pub fn message(message: String) -> (e: AppError)
        ensures
            e@ == AppErrorView::Message(message@),
    {
        AppError::Message(message)
    }

    /// Wraps an I/O failure with human-readable context.
    pub fn io(context: &'static str, source: String) -> (e: AppError)
        ensures
            e@ == (AppErrorView::Io { context: context@, source: source@ }),
    {
        AppError::Io { context, source }
    }

    /// The error's message, as its `Display` reads.
    pub fn to_string(&self) -> (s: String)
        ensures
            s@ == app_error_text(self@),
    {
        match self {
            AppError::Core(e) => e.to_string(),
            AppError::Io { context, source } => {
                let mut s = owned(context);
                push_str(&mut s, ": ");
                push_str(&mut s, source.as_str());
                s
            },
            AppError::Message(m) => owned(m.as_str()),
        }
    }
}

impl From<CoreError> for AppError {
    fn from(e: CoreError) -> (r: AppError) {
        AppError::Core(e)
    }
}

impl vstd::std_specs::convert::FromSpecImpl<CoreError> for AppError {
    open spec fn obeys_from_spec() -> bool {
        true
    }

    open spec fn from_spec(v: CoreError) -> AppError {
        AppError::Core(v)
    }
}

} // verus!
