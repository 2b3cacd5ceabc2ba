//! Clipboard and paste settings.

use vstd::prelude::*;

use crate::error::{reports, CoreError};
use crate::status::PasteMode;
use crate::text::{is_blank, is_blank_str, owned, trim};

verus! {

/// Clipboard and paste settings for the final text insertion phase.
#[derive(Clone, Debug, PartialEq, Eq)]
pub struct PasteConfig {
    pub mode: PasteMode,
    pub append_space: bool,
    pub clipboard_command: String,
    pub type_command: String,
}

/// The first rule that a paste configuration breaks, as its message.
pub open spec fn paste_problem(c: PasteConfig) -> Option<Seq<char>> {
    if trim(c.clipboard_command@).len() == 0 {
        Some("paste.clipboard_command must not be empty"@)
    } else if trim(c.type_command@).len() == 0 {
        Some("paste.type_command must not be empty"@)
    } else {
        None
    }
}

impl PasteConfig {
    /// Both commands must hold more than whitespace.
    pub fn validate(&self) -> (r: Result<(), CoreError>)
        ensures
            reports(r, paste_problem(*self)),
    {
        if is_blank_str(self.clipboard_command.as_str()) {
            return Err(CoreError::InvalidConfig(owned("paste.clipboard_command must not be empty")));
        }
        if is_blank_str(self.type_command.as_str()) {
            return Err(CoreError::InvalidConfig(owned("paste.type_command must not be empty")));
        }
        Ok(())
    }
}

/// A paste configuration passes exactly when both commands hold more than
/// whitespace; a blank clipboard command is reported first, then a blank
/// type command.
pub proof fn law_paste_commands_must_not_be_blank(c: PasteConfig)
    ensures
        paste_problem(c) is None <==> (!is_blank(c.clipboard_command@) && !is_blank(
            c.type_command@,
        )),
        is_blank(c.clipboard_command@) ==> paste_problem(c) == Some(
            "paste.clipboard_command must not be empty"@,
        ),
        !is_blank(c.clipboard_command@) && is_blank(c.type_command@) ==> paste_problem(c) == Some(
            "paste.type_command must not be empty"@,
        ),
{
    crate::text::lemma_trim_empty_iff_blank(c.clipboard_command@);
    crate::text::lemma_trim_empty_iff_blank(c.type_command@);
}

} // verus!
