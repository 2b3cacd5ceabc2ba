//! The command line of the glossa binary and the control requests it sends.

use vstd::prelude::*;

verus! {

/// Command-line interface for the Glossa daemon and helper tools: the
/// configuration file (a UTF-8 path), given before or after the subcommand,
/// and the subcommand.
#[derive(Clone, Debug, PartialEq, Eq)]
pub struct Cli {
    pub config: Option<String>,
    pub command: Command,
}

/// Top-level commands supported by the binary.
#[derive(Clone, Copy, Debug, PartialEq, Eq, Hash, Structural)]
pub enum Command {
    Daemon,
    Service { service: ServiceCommand },
    Ctl { ctl: CtlCommand },
    Doctor,
    Status,
    Update,
}

/// Subcommands for the external control CLI.
#[derive(Clone, Copy, Debug, PartialEq, Eq, Hash, Structural)]
pub enum CtlCommand {
    Toggle,
    Stream,
    Shutdown,
}

/// Subcommands for managing the installed systemd user service.
#[derive(Clone, Copy, Debug, PartialEq, Eq, Hash, Structural)]
pub enum ServiceCommand {
    Start,
    Stop,
    Restart,
}

/// Requests that the control client sends to the daemon's socket.
#[derive(Clone, Copy, Debug, PartialEq, Eq, Hash, Structural)]
pub enum IpcRequest {
    Toggle,
    Stream,
    Shutdown,
    Status,
}

/// The socket request for a control subcommand: each asks for the
/// daemon operation of the same name.
pub open spec fn request_for(command: CtlCommand) -> IpcRequest {
    match command {
        CtlCommand::Toggle => IpcRequest::Toggle,
        CtlCommand::Stream => IpcRequest::Stream,
        CtlCommand::Shutdown => IpcRequest::Shutdown,
    }
}

/// The request sent for a control subcommand.
pub fn ipc_request_for_ctl_command(command: CtlCommand) -> (r: IpcRequest)
    ensures
        r == request_for(command),
{
    match command {
        CtlCommand::Toggle => IpcRequest::Toggle,
        CtlCommand::Stream => IpcRequest::Stream,
        CtlCommand::Shutdown => IpcRequest::Shutdown,
    }
}

} // verus!
