//! Logging settings.

use vstd::prelude::*;

use crate::error::{reports, CoreError};
use crate::text::owned;

verus! {

/// Log level used by the daemon.
#[derive(Clone, Copy, Debug, PartialEq, Eq, Hash, Structural)]
pub enum LogLevel {
    Trace,
    Debug,
    Info,
    Warn,
    Error,
}

/// Logging configuration.
#[derive(Clone, Copy, Debug, PartialEq, Eq, Structural)]
pub struct LoggingConfig {
    pub level: LogLevel,
    pub journal: bool,
    pub file: bool,
}

/// The rule that a logging configuration breaks, as its message.
pub open spec fn logging_problem(c: LoggingConfig) -> Option<Seq<char>> {
    if !c.journal && !c.file {
        Some("logging must enable at least one sink"@)
    } else {
        None
    }
}

impl Default for LoggingConfig {
    fn default() -> (c: LoggingConfig)
        ensures
            c == (LoggingConfig { level: LogLevel::Info, journal: true, file: false }),
    {
        LoggingConfig { level: LogLevel::Info, journal: true, file: false }
    }
}

impl LoggingConfig {
    /// At least one sink must be enabled.
    pub fn validate(&self) -> (r: Result<(), CoreError>)
        ensures
            reports(r, logging_problem(*self)),
    {
        if !self.journal && !self.file {
            return Err(CoreError::InvalidConfig(owned("logging must enable at least one sink")));
        }
        Ok(())
    }
}

/// The name that the tracing filter gives a level.
pub open spec fn level_filter(level: LogLevel) -> Seq<char> {
    match level {
        LogLevel::Trace => "trace"@,
        LogLevel::Debug => "debug"@,
        LogLevel::Info => "info"@,
        LogLevel::Warn => "warn"@,
        LogLevel::Error => "error"@,
    }
}

/// The tracing filter directive for a configured level.
pub fn filter_directive(level: LogLevel) -> (s: &'static str)
    ensures
        s@ == level_filter(level),
{
    match level {
        LogLevel::Trace => "trace",
        LogLevel::Debug => "debug",
        LogLevel::Info => "info",
        LogLevel::Warn => "warn",
        LogLevel::Error => "error",
    }
}

/// A logging configuration passes exactly when at least one sink is on.
pub proof fn law_logging_needs_a_sink(c: LoggingConfig)
    ensures
        logging_problem(c) is None <==> (c.journal || c.file),
{
}

} // verus!
