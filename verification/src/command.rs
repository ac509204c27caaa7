//! Outcome of one external command, as the runner reports it.

use vstd::prelude::*;

verus! {

/// What running a command to completion produced: either the command ran
/// and reported an exit status and its error output, or it could not be
/// launched at all.
#[derive(Debug, PartialEq, Eq)]
pub enum RunOutcome {
    Completed { success: bool, stderr: String },
    LaunchFailed { detail: String },
}

} // verus!
