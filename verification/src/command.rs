//! Commands routed into the daemon state machine.

use vstd::prelude::*;

verus! {

/// Origin of a command routed into the daemon state machine.
#[derive(Clone, Copy, Debug, PartialEq, Eq, Hash, Structural)]
pub enum CommandOrigin {
    PortalShortcut,
    CliControl,
    TrayMenu,
    EscapeKey,
    Internal,
}

/// Commands accepted by the daemon state machine.
#[derive(Clone, Copy, Debug, PartialEq, Eq, Hash, Structural)]
pub enum AppCommand {
    StartRecording { origin: CommandOrigin },
    StopRecording { origin: CommandOrigin },
    ToggleRecording { origin: CommandOrigin },
    CancelRecording { origin: CommandOrigin },
    ToggleInputStream { origin: CommandOrigin },
    EnableInputStream { origin: CommandOrigin },
    DisableInputStream { origin: CommandOrigin },
    Restart { origin: CommandOrigin },
    Shutdown { origin: CommandOrigin },
}

/// The commands that start, stop or cancel a recording.
pub open spec fn is_recording_command(c: AppCommand) -> bool {
    ||| c is StartRecording
    ||| c is StopRecording
    ||| c is ToggleRecording
    ||| c is CancelRecording
}

/// The commands that switch the idle input stream.
pub open spec fn is_input_stream_command(c: AppCommand) -> bool {
    ||| c is ToggleInputStream
    ||| c is EnableInputStream
    ||| c is DisableInputStream
}

} // verus!
