//! Installing the JavaScript runtime.
//!
//! The install itself is one shell command; the choice of command and the
//! reading of its outcome are decided here.

use vstd::prelude::*;
use vstd::string::*;
use crate::command::RunOutcome;

verus! {

/// The install command failed.
#[derive(Debug, PartialEq, Eq)]
pub enum InstallBunError {
    /// The command ran and reported failure; its error output is kept.
    ScriptFailed { stderr: String },
    /// The command could not be launched.
    LaunchFailed { detail: String },
}

impl InstallBunError {
    /// Report line for the front end.
    pub fn message(&self) -> (r: String)
        ensures
            self matches InstallBunError::ScriptFailed { stderr } ==> r@
                == "Failed to install Bun: "@ + stderr@,
            self matches InstallBunError::LaunchFailed { detail } ==> r@
                == "Error executing install command: "@ + detail@,
    {
        match self {
            InstallBunError::ScriptFailed { stderr } => String::from_str(
                "Failed to install Bun: ",
            ).concat(stderr.as_str()),
            InstallBunError::LaunchFailed { detail } => String::from_str(
                "Error executing install command: ",
            ).concat(detail.as_str()),
        }
    }
}

/// The shell command that installs the runtime, by platform.
pub fn install_bun_command(windows: bool) -> (r: String)
    ensures
        windows ==> r@ == "powershell -c \"irm bun.sh/install.ps1 | iex\""@,
        !windows ==> r@ == "curl -fsSL https://bun.sh/install | bash"@,
{
    if windows {
        String::from_str("powershell -c \"irm bun.sh/install.ps1 | iex\"")
    } else {
        String::from_str("curl -fsSL https://bun.sh/install | bash")
    }
}

/// Report for the install command: success exactly when the install
/// script ran and exited successfully.
pub fn install_bun_report(outcome: RunOutcome) -> (r: Result<String, InstallBunError>)
    ensures
        outcome matches RunOutcome::Completed { success: true, .. } ==> (r matches Ok(m) && m@
            == "Bun installed successfully"@),
        outcome matches RunOutcome::Completed { success: false, stderr } ==> r == Err::<
            String,
            InstallBunError,
        >(InstallBunError::ScriptFailed { stderr }),
        outcome matches RunOutcome::LaunchFailed { detail } ==> r == Err::<
            String,
            InstallBunError,
        >(InstallBunError::LaunchFailed { detail }),
{
    match outcome {
        RunOutcome::Completed { success: true, stderr: _ } => Ok(
            String::from_str("Bun installed successfully"),
        ),
        RunOutcome::Completed { success: false, stderr } => Err(
            InstallBunError::ScriptFailed { stderr },
        ),
        RunOutcome::LaunchFailed { detail } => Err(InstallBunError::LaunchFailed { detail }),
    }
}

} // verus!
