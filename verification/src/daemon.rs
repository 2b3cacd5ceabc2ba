//! Decisions of the daemon's top-level loop and the report of a fatal error.

use vstd::prelude::*;

use crate::actor::ActorExit;
use crate::config::input::InputBackend;
use crate::config::AppConfig;
use crate::text::{join_strings, joined, owned, push_str, views};

verus! {

/// Title of the dialog that reports a fatal error.
pub const FATAL_ERROR_TITLE: &'static str = "Glossa fatal error";

/// The fatal error report: a fixed first line, a blank line, then the
/// error's chain of messages from the outermost, separated by `": "`.
pub open spec fn fatal_message(chain: Seq<Seq<char>>) -> Seq<char> {
    "Glossa encountered a fatal error and exited.\n\n"@ + joined(chain, ": "@)
}

/// The text shown when the daemon stops on an error, given the error's
/// chain of messages from the outermost to the root cause.
pub fn format_fatal_error_message(chain: &Vec<String>) -> (m: String)
    ensures
        m@ == fatal_message(views(chain@)),
{
    let mut m = owned("Glossa encountered a fatal error and exited.\n\n");
    let joined_chain = join_strings(chain, ": ");
    push_str(&mut m, joined_chain.as_str());
    m
}

/// Whether the daemon serves the control socket: when the CLI is enabled.
pub fn starts_ipc_server(config: &AppConfig) -> (b: bool)
    ensures
        b == config.control.enable_cli,
{
    config.control.enable_cli
}

/// Whether the daemon listens to the portal shortcut: when that is the
/// configured input backend.
pub fn starts_portal_source(config: &AppConfig) -> (b: bool)
    ensures
        b == (config.input.backend == InputBackend::Portal),
{
    match config.input.backend {
        InputBackend::Portal => true,
        InputBackend::Disabled => false,
    }
}

/// Whether the daemon reloads its configuration and runs again after the
/// actor exits: on restart, not on shutdown.
pub fn restarts_after(exit: ActorExit) -> (b: bool)
    ensures
        b == (exit == ActorExit::Restart),
{
    match exit {
        ActorExit::Restart => true,
        ActorExit::Shutdown => false,
    }
}

} // verus!
