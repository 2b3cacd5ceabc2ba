//! Managing the installed systemd user service: the `systemctl` call and the
//! error reported when it fails.

use vstd::prelude::*;

use crate::cli::ServiceCommand;
use crate::text::{owned, push_str, trim, trimmed};

verus! {

/// The `systemctl` verb for a service subcommand.
pub open spec fn action_name(command: ServiceCommand) -> Seq<char> {
    match command {
        ServiceCommand::Start => "start"@,
        ServiceCommand::Stop => "stop"@,
        ServiceCommand::Restart => "restart"@,
    }
}

/// The verb passed to `systemctl`.
pub fn systemctl_action(command: ServiceCommand) -> (s: &'static str)
    ensures
        s@ == action_name(command),
{
    match command {
        ServiceCommand::Start => "start",
        ServiceCommand::Stop => "stop",
        ServiceCommand::Restart => "restart",
    }
}

/// The arguments of the `systemctl` call: `--user <verb> glossa`.
pub fn build_systemctl_args(command: ServiceCommand) -> (args: [&'static str; 3])
    ensures
        args@[0]@ == "--user"@,
        args@[1]@ == action_name(command),
        args@[2]@ == "glossa"@,
{
    ["--user", systemctl_action(command), "glossa"]
}

/// The error reported when `systemctl` fails: the command line, followed by
/// its trimmed standard error when that is not empty.
pub open spec fn failure_message(command: ServiceCommand, stderr_text: Seq<char>) -> Seq<char> {
    let head = "`systemctl --user "@ + action_name(command) + " glossa` failed"@;
    if trim(stderr_text).len() == 0 {
        head
    } else {
        head + ": "@ + trim(stderr_text)
    }
}

/// What `String::from_utf8_lossy` gives for a byte string.
pub uninterp spec fn utf8_lossy(bytes: Seq<u8>) -> Seq<char>;

/// `String::from_utf8_lossy`: the bytes decoded as UTF-8, with each invalid
/// sequence replaced by U+FFFD. The result is named by `utf8_lossy`; the one
/// fact stated of it is the documented one: valid UTF-8 decodes unchanged.
#[verifier::external_body]
fn decode_utf8_lossy(bytes: &[u8]) -> (s: String)
    ensures
        s@ == utf8_lossy(bytes@),
        vstd::utf8::valid_utf8(bytes@) ==> s@ == vstd::utf8::decode_utf8(bytes@),
{
    String::from_utf8_lossy(bytes).into_owned()
}

/// The failure message for a command, given its standard error as text.
pub fn systemctl_failure_message(command: ServiceCommand, stderr_text: &str) -> (m: String)
    ensures
        m@ == failure_message(command, stderr_text@),
{
    let stderr = trimmed(stderr_text);
    let mut m = owned("`systemctl --user ");
    push_str(&mut m, systemctl_action(command));
    push_str(&mut m, " glossa` failed");
    if !stderr.as_str().is_empty() {
        push_str(&mut m, ": ");
        push_str(&mut m, stderr.as_str());
    }
    m
}

/// `Ok` when `systemctl` succeeded, else the failure message built from its
/// standard error, decoded leniently as UTF-8.
pub fn ensure_systemctl_succeeded(command: ServiceCommand, success: bool, stderr: &[u8]) -> (r:
    Result<(), String>)
    ensures
        success ==> r is Ok,
        !success ==> (r matches Err(m) && m@ == failure_message(command, utf8_lossy(stderr@))),
        !success && vstd::utf8::valid_utf8(stderr@) ==> (r matches Err(m) && m@ == failure_message(
            command,
            vstd::utf8::decode_utf8(stderr@),
        )),
{
    if success {
        return Ok(());
    }
    let text = decode_utf8_lossy(stderr);
    Err(systemctl_failure_message(command, text.as_str()))
}

} // verus!
