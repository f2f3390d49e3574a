//! Decisions around the script execution bridge. The embedded scripting
//! runtime itself is an opaque collaborator invoked by the front end at
//! two entry points; these functions fix how each of its outcomes is
//! surfaced: execution failures are reported and leave the command field
//! untouched, completion failures are swallowed.

use vstd::prelude::*;

use crate::ui::{CommandError, CommandOutput};
use crate::value::opt_str_view;

verus! {

/// Which completion variant a completion request selects; passed to the
/// script's completion entry point as an explicit tag.
#[derive(Debug, Copy, Clone, PartialEq, Eq, Structural)]
pub enum CompletionType {
    Command,
    Address,
}

/// What came of invoking a script's execution entry point.
pub enum ScriptOutcome {
    /// The script ran to completion.
    Succeeded,
    /// The script ran and signalled failure, with its message.
    Failed(String),
    /// The script rejected its argument text, with its message.
    RejectedArguments(String),
    /// The resolved file could not be opened; non-fatal, and not a
    /// resolution failure.
    Unreadable,
}

/// The command field is cleared exactly when the script succeeded; on any
/// failure it is left untouched.
pub fn clears_command_field(outcome: &ScriptOutcome) -> (r: bool)
    ensures
        r == (outcome is Succeeded),
{
    match outcome {
        ScriptOutcome::Succeeded => true,
        _ => false,
    }
}

/// The outcome surfaced to the UI for one executed script.
pub fn submission_output(outcome: &ScriptOutcome) -> (r: CommandOutput)
    ensures
        outcome is Succeeded ==> r.error is None && r.message is None,
        outcome matches ScriptOutcome::Failed(m) ==> r.error == Some(
            CommandError::ErrorDuringExecution,
        ) && opt_str_view(r.message) == Some(m@),
        outcome matches ScriptOutcome::RejectedArguments(m) ==> r.error == Some(
            CommandError::InvalidArguments,
        ) && opt_str_view(r.message) == Some(m@),
        outcome is Unreadable ==> r.error == Some(CommandError::ErrorDuringExecution)
            && r.message is None,
{
    match outcome {
        ScriptOutcome::Succeeded => CommandOutput { error: None, message: None },
        ScriptOutcome::Failed(m) => CommandOutput {
            error: Some(CommandError::ErrorDuringExecution),
            message: Some(m.clone()),
        },
        ScriptOutcome::RejectedArguments(m) => CommandOutput {
            error: Some(CommandError::InvalidArguments),
            message: Some(m.clone()),
        },
        ScriptOutcome::Unreadable => CommandOutput {
            error: Some(CommandError::ErrorDuringExecution),
            message: None,
        },
    }
}

/// Completion failures are swallowed: an absent outcome yields no
/// completions rather than an error.
pub fn completion_values(outcome: Option<Vec<String>>) -> (r: Vec<String>)
    ensures
        match outcome {
            Some(v) => r == v,
            None => r@.len() == 0,
        },
{
    match outcome {
        Some(v) => v,
        None => Vec::new(),
    }
}

} // verus!
