//! The automatic startup sequence.
//!
//! On launch, after a fixed delay, the supervisor checks the JavaScript
//! runtime and installs it when missing, checks the MCP server install
//! and installs it when missing, then starts the MCP server and the
//! FastAPI server.  A failed install aborts the sequence; a failed check
//! or a failed start does not — the sequence moves on.

use vstd::prelude::*;

verus! {

/// Seconds waited before the startup sequence begins.
pub const STARTUP_DELAY_SECS: u64 = 2;

/// One stage of the startup sequence.  Every non-terminal stage names the
/// operation the runner must perform next.
#[derive(Debug, Clone, Copy, PartialEq, Eq, Structural)]
pub enum StartupStep {
    /// Check whether the JavaScript runtime is installed.
    CheckBun,
    /// Install the JavaScript runtime.
    InstallBun,
    /// Check whether the MCP server is installed.
    CheckMcp,
    /// Install the MCP server.
    InstallMcp,
    /// Start the MCP server.
    StartMcp,
    /// Start the FastAPI server.
    StartFastapi,
    /// The sequence ran to its end.
    Finished,
    /// An install failed; the sequence stops trying for this run.
    Aborted,
}

/// The outcome of the operation a stage asked for.  A check that itself
/// failed reports `installed: None`.
#[derive(Debug, Clone, Copy, PartialEq, Eq, Structural)]
pub enum StartupEvent {
    BunChecked { installed: Option<bool> },
    BunInstalled { ok: bool },
    McpChecked { installed: Option<bool> },
    McpInstalled { ok: bool },
    McpStarted { ok: bool },
    FastapiStarted { ok: bool },
}

/// Which event answers which stage.
pub open spec fn startup_allows(s: StartupStep, e: StartupEvent) -> bool {
    match (s, e) {
        (StartupStep::CheckBun, StartupEvent::BunChecked { .. }) => true,
        (StartupStep::InstallBun, StartupEvent::BunInstalled { .. }) => true,
        (StartupStep::CheckMcp, StartupEvent::McpChecked { .. }) => true,
        (StartupStep::InstallMcp, StartupEvent::McpInstalled { .. }) => true,
        (StartupStep::StartMcp, StartupEvent::McpStarted { .. }) => true,
        (StartupStep::StartFastapi, StartupEvent::FastapiStarted { .. }) => true,
        _ => false,
    }
}

/// The transition table of the startup sequence.
///
/// An install stage is entered only from its check stage, and only on a
/// check that answered `installed: Some(false)`: a runtime or server seen
/// installed is not reinstalled, and a check that itself failed is
/// skipped over rather than treated as missing.  Start failures are
/// reported by the runner and do not stop the sequence.
pub open spec fn startup_next(s: StartupStep, e: StartupEvent) -> StartupStep {
    match (s, e) {
        (StartupStep::CheckBun, StartupEvent::BunChecked { installed }) => {
            if installed == Some(false) {
                StartupStep::InstallBun
            } else {
                StartupStep::CheckMcp
            }
        },
        (StartupStep::InstallBun, StartupEvent::BunInstalled { ok }) => {
            if ok {
                StartupStep::CheckMcp
            } else {
                StartupStep::Aborted
            }
        },
        (StartupStep::CheckMcp, StartupEvent::McpChecked { installed }) => {
            if installed == Some(false) {
                StartupStep::InstallMcp
            } else {
                StartupStep::StartMcp
            }
        },
        (StartupStep::InstallMcp, StartupEvent::McpInstalled { ok }) => {
            if ok {
                StartupStep::StartMcp
            } else {
                StartupStep::Aborted
            }
        },
        (StartupStep::StartMcp, StartupEvent::McpStarted { .. }) => StartupStep::StartFastapi,
        (StartupStep::StartFastapi, StartupEvent::FastapiStarted { .. }) => StartupStep::Finished,
        _ => s,
    }
}

/// The stage the sequence begins at.
pub fn startup_init() -> (r: StartupStep)
    ensures
        r == StartupStep::CheckBun,
{
    StartupStep::CheckBun
}

/// Drives the startup sequence one stage.
pub fn startup_step(s: StartupStep, e: StartupEvent) -> (r: StartupStep)
    requires
        startup_allows(s, e),
    ensures
        r == startup_next(s, e),
{
    match (s, e) {
        (StartupStep::CheckBun, StartupEvent::BunChecked { installed }) => match installed {
            Some(false) => StartupStep::InstallBun,
            _ => StartupStep::CheckMcp,
        },
        (StartupStep::InstallBun, StartupEvent::BunInstalled { ok }) => {
            if ok {
                StartupStep::CheckMcp
            } else {
                StartupStep::Aborted
            }
        },
        (StartupStep::CheckMcp, StartupEvent::McpChecked { installed }) => match installed {
            Some(false) => StartupStep::InstallMcp,
            _ => StartupStep::StartMcp,
        },
        (StartupStep::InstallMcp, StartupEvent::McpInstalled { ok }) => {
            if ok {
                StartupStep::StartMcp
            } else {
                StartupStep::Aborted
            }
        },
        (StartupStep::StartMcp, StartupEvent::McpStarted { ok: _ }) => StartupStep::StartFastapi,
        (StartupStep::StartFastapi, StartupEvent::FastapiStarted { ok: _ }) => {
            StartupStep::Finished
        },
        _ => {
            proof {
                assert(false);
            }
            StartupStep::Aborted
        },
    }
}

/// An install is attempted only when the corresponding check reported the
/// piece missing: no stage and event other than a check that answered
/// `installed: Some(false)` lead into an install stage.
pub proof fn lemma_install_only_when_missing(s: StartupStep, e: StartupEvent)
    requires
        startup_allows(s, e),
    ensures
        startup_next(s, e) == StartupStep::InstallBun ==> s == StartupStep::CheckBun && e == (
        StartupEvent::BunChecked { installed: Some(false) }),
        startup_next(s, e) == StartupStep::InstallMcp ==> s == StartupStep::CheckMcp && e == (
        StartupEvent::McpChecked { installed: Some(false) }),
{
}

} // verus!
