//! Launching the FastAPI server.
//!
//! The longest sequence the supervisor runs: find the server sources,
//! check the requirements file, pick an interpreter, ensure a virtual
//! environment, install dependencies, and spawn the server.  The sequence
//! is a state machine: every non-terminal step names the outside work the
//! runner must do next, and the outcome of that work drives the next
//! step.  A failed dependency install is tolerated; a virtual environment
//! that cannot be created is not.

use vstd::prelude::*;
use vstd::string::*;
use crate::command::RunOutcome;
use crate::locate::{PythonProbe, probe_usable, select_python};
use crate::paths::venv_python_path;

verus! {

/// Why launching the FastAPI server failed.
#[derive(Debug, Clone, PartialEq, Eq)]
pub enum LaunchError {
    DirNotFound,
    RequirementsMissing,
    PythonNotFound,
    VenvLaunchFailed { detail: String },
    VenvFailed { stderr: String },
    VenvPythonMissing { path: String },
    PipLaunchFailed { detail: String },
    MainMissing,
    SpawnFailed { detail: String },
}

impl LaunchError {
    /// Report line for the front end.
    pub fn message(&self) -> (r: String)
        ensures
            *self == LaunchError::DirNotFound ==> r@
                == "FastAPI directory not found. Expected at resource/mcp-client-python/api"@,
            *self == LaunchError::RequirementsMissing ==> r@
                == "requirements.txt not found in FastAPI directory"@,
            *self == LaunchError::PythonNotFound ==> r@ == "Python executable not found"@,
            self matches LaunchError::VenvLaunchFailed { detail } ==> r@
                == "Failed to create virtual environment: "@ + detail@,
            self matches LaunchError::VenvFailed { stderr } ==> r@
                == "Failed to create virtual environment: "@ + stderr@,
            self matches LaunchError::VenvPythonMissing { path } ==> r@
                == "Virtual environment Python not found at: "@ + path@,
            self matches LaunchError::PipLaunchFailed { detail } ==> r@
                == "Failed to install dependencies: "@ + detail@,
            *self == LaunchError::MainMissing ==> r@
                == "main.py not found in FastAPI directory"@,
            self matches LaunchError::SpawnFailed { detail } ==> r@
                == "Failed to start FastAPI server: "@ + detail@,
    {
        match self {
            LaunchError::DirNotFound => String::from_str(
                "FastAPI directory not found. Expected at resource/mcp-client-python/api",
            ),
            LaunchError::RequirementsMissing => String::from_str(
                "requirements.txt not found in FastAPI directory",
            ),
            LaunchError::PythonNotFound => String::from_str("Python executable not found"),
            LaunchError::VenvLaunchFailed { detail } => String::from_str(
                "Failed to create virtual environment: ",
            ).concat(detail.as_str()),
            LaunchError::VenvFailed { stderr } => String::from_str(
                "Failed to create virtual environment: ",
            ).concat(stderr.as_str()),
            LaunchError::VenvPythonMissing { path } => String::from_str(
                "Virtual environment Python not found at: ",
            ).concat(path.as_str()),
            LaunchError::PipLaunchFailed { detail } => String::from_str(
                "Failed to install dependencies: ",
            ).concat(detail.as_str()),
            LaunchError::MainMissing => String::from_str(
                "main.py not found in FastAPI directory",
            ),
            LaunchError::SpawnFailed { detail } => String::from_str(
                "Failed to start FastAPI server: ",
            ).concat(detail.as_str()),
        }
    }
}

/// Report line when the guard finds the server already up.
pub fn already_running_message() -> (r: String)
    ensures
        r@ == "FastAPI server is already running"@,
{
    String::from_str("FastAPI server is already running")
}

/// Report line when the launch sequence reaches `Done` with the child's
/// id.
pub fn fastapi_start_success_message(pid: u32) -> (r: String)
    ensures
        r@ == "FastAPI server started with PID: "@ + crate::digits::decimal_digits(pid as nat),
{
    String::from_str("FastAPI server started with PID: ").concat(
        crate::digits::u32_to_decimal(pid).as_str(),
    )
}

/// The interpreter path inside the virtual environment under `dir`.
pub open spec fn venv_python_view(dir: Seq<char>, windows: bool) -> Seq<char> {
    if windows {
        dir + "/venv"@ + "/Scripts/python.exe"@
    } else {
        dir + "/venv"@ + "/bin/python"@
    }
}

/// One step of the launch sequence.  Every non-terminal step names the
/// outside work the runner must do next.
#[derive(Debug, Clone, PartialEq, Eq)]
pub enum LaunchStep {
    /// Read the working directory and take its parent.
    FindDevDir,
    /// Check whether the development candidate exists.
    ProbeDevDir { candidate: String },
    /// Look up the resource directory and take its parent.
    FindResourceDir,
    /// Check whether the production candidate exists.
    ProbeResourceDir { candidate: String },
    /// Check whether `requirements.txt` exists inside `dir`.
    CheckRequirements { dir: String },
    /// Probe the interpreter candidates, in their preference order.
    FindPython { dir: String },
    /// Check whether the virtual environment directory `dir/venv` exists.
    CheckVenv { dir: String, python: String },
    /// Run `python -m venv venv` inside `dir`.
    CreateVenv { dir: String, python: String },
    /// Check whether the virtual environment's own interpreter exists.
    CheckVenvPython { dir: String, venv_python: String },
    /// Run the dependency install inside `dir`; failure is tolerated.
    InstallDeps { dir: String, venv_python: String },
    /// Check whether the parent of `dir` holds `pyproject.toml`.
    CheckParentPackage { dir: String, venv_python: String },
    /// Install the parent package; every outcome is tolerated.
    InstallParent { dir: String, venv_python: String },
    /// Check whether `main.py` exists inside `dir`.
    CheckMain { dir: String, venv_python: String },
    /// Spawn the server: the virtual environment's interpreter on
    /// `main.py`, inside `dir`.
    Spawn { dir: String, venv_python: String },
    /// The server is up under the child id `pid`; the runner stores it.
    Done { pid: u32 },
    /// The guard found the server already up; nothing was launched.
    AlreadyRunning,
    Failed { error: LaunchError },
}

/// The outcome of the outside work a launch step asked for.
#[derive(Debug, PartialEq, Eq)]
pub enum LaunchEvent {
    /// The parent of the working directory, when both could be read.
    DevParent { parent: Option<String> },
    /// The parent of the resource directory, when both could be read.
    ResourceParent { parent: Option<String> },
    /// An existence check answered.
    Probed { exists: bool },
    /// The interpreter candidates, each with its lookup and version
    /// outcome, in the preference order in which they were probed.
    PythonProbes { probes: Vec<PythonProbe> },
    /// A command ran.
    Ran { outcome: RunOutcome },
    /// The spawn finished: the child's id, or the error.
    Spawned { result: Result<u32, String> },
}

/// Which event answers which step.
pub open spec fn launch_allows(s: LaunchStep, e: LaunchEvent) -> bool {
    match (s, e) {
        (LaunchStep::FindDevDir, LaunchEvent::DevParent { .. }) => true,
        (LaunchStep::ProbeDevDir { .. }, LaunchEvent::Probed { .. }) => true,
        (LaunchStep::FindResourceDir, LaunchEvent::ResourceParent { .. }) => true,
        (LaunchStep::ProbeResourceDir { .. }, LaunchEvent::Probed { .. }) => true,
        (LaunchStep::CheckRequirements { .. }, LaunchEvent::Probed { .. }) => true,
        (LaunchStep::FindPython { .. }, LaunchEvent::PythonProbes { .. }) => true,
        (LaunchStep::CheckVenv { .. }, LaunchEvent::Probed { .. }) => true,
        (LaunchStep::CreateVenv { .. }, LaunchEvent::Ran { .. }) => true,
        (LaunchStep::CheckVenvPython { .. }, LaunchEvent::Probed { .. }) => true,
        (LaunchStep::InstallDeps { .. }, LaunchEvent::Ran { .. }) => true,
        (LaunchStep::CheckParentPackage { .. }, LaunchEvent::Probed { .. }) => true,
        (LaunchStep::InstallParent { .. }, LaunchEvent::Ran { .. }) => true,
        (LaunchStep::CheckMain { .. }, LaunchEvent::Probed { .. }) => true,
        (LaunchStep::Spawn { .. }, LaunchEvent::Spawned { .. }) => true,
        _ => false,
    }
}

/// First step of the launch sequence: nothing is launched when the guard
/// found the held child still alive.
pub fn launch_init(running: bool) -> (r: LaunchStep)
    ensures
        running ==> r == LaunchStep::AlreadyRunning,
        !running ==> r == LaunchStep::FindDevDir,
{
    if running {
        LaunchStep::AlreadyRunning
    } else {
        LaunchStep::FindDevDir
    }
}

/// Drives the launch sequence one step.
///
/// The sources are searched in a fixed priority order — the development
/// layout beside the working directory first, then the production layout
/// beside the resource bundle — and the search stops at the first
/// existing match.  The virtual environment is created only when missing;
/// a failed dependency install and a failed parent-package install are
/// tolerated; a missing requirements file, interpreter, virtual
/// environment interpreter or entry script is not.
pub fn launch_step(windows: bool, s: LaunchStep, e: LaunchEvent) -> (r: LaunchStep)
    requires
        launch_allows(s, e),
    ensures
        s == LaunchStep::FindDevDir ==> ((e matches LaunchEvent::DevParent { parent: Some(d) }
            ==> (r matches LaunchStep::ProbeDevDir { candidate } && candidate@ == d@
            + "/resource/mcp-client-python/api"@)) && (e == (LaunchEvent::DevParent {
            parent: None,
        }) ==> r == LaunchStep::FindResourceDir)),
        s matches LaunchStep::ProbeDevDir { candidate } ==> ((e == (LaunchEvent::Probed {
            exists: true,
        }) ==> r == (LaunchStep::CheckRequirements { dir: candidate })) && (e == (
        LaunchEvent::Probed { exists: false }) ==> r == LaunchStep::FindResourceDir)),
        s == LaunchStep::FindResourceDir ==> ((e matches LaunchEvent::ResourceParent {
            parent: Some(p),
        } ==> (r matches LaunchStep::ProbeResourceDir { candidate } && candidate@ == p@
            + "/resource/mcp-client-python/api"@)) && (e == (LaunchEvent::ResourceParent {
            parent: None,
        }) ==> r == (LaunchStep::Failed { error: LaunchError::DirNotFound }))),
        s matches LaunchStep::ProbeResourceDir { candidate } ==> ((e == (LaunchEvent::Probed {
            exists: true,
        }) ==> r == (LaunchStep::CheckRequirements { dir: candidate })) && (e == (
        LaunchEvent::Probed { exists: false }) ==> r == (LaunchStep::Failed {
            error: LaunchError::DirNotFound,
        }))),
        s matches LaunchStep::CheckRequirements { dir } ==> ((e == (LaunchEvent::Probed {
            exists: true,
        }) ==> r == (LaunchStep::FindPython { dir })) && (e == (LaunchEvent::Probed {
            exists: false,
        }) ==> r == (LaunchStep::Failed { error: LaunchError::RequirementsMissing }))),
        s matches LaunchStep::FindPython { dir } ==> (e matches LaunchEvent::PythonProbes {
            probes,
        } ==> (((exists|i: int| 0 <= i < probes@.len() && probe_usable(probes@[i])) ==> (r matches
        LaunchStep::CheckVenv { dir: d2, python } && d2 == dir && (exists|i: int|
            0 <= i < probes@.len() && probe_usable(probes@[i]) && (forall|j: int|
                0 <= j < i ==> !probe_usable(probes@[j])) && Some(python)
                == probes@[i].path))) && ((forall|i: int|
            0 <= i < probes@.len() ==> !probe_usable(probes@[i])) ==> r == (LaunchStep::Failed {
            error: LaunchError::PythonNotFound,
        })))),
        s matches LaunchStep::CheckVenv { dir, python } ==> ((e == (LaunchEvent::Probed {
            exists: true,
        }) ==> (r matches LaunchStep::CheckVenvPython { dir: d2, venv_python } && d2 == dir
            && venv_python@ == venv_python_view(dir@, windows))) && (e == (LaunchEvent::Probed {
            exists: false,
        }) ==> r == (LaunchStep::CreateVenv { dir: dir, python: python }))),
        s matches LaunchStep::CreateVenv { dir, python } ==> ((e matches LaunchEvent::Ran {
            outcome: RunOutcome::Completed { success: true, .. },
        } ==> (r matches LaunchStep::CheckVenvPython { dir: d2, venv_python } && d2 == dir
            && venv_python@ == venv_python_view(dir@, windows))) && (e matches LaunchEvent::Ran {
            outcome: RunOutcome::Completed { success: false, stderr },
        } ==> r == (LaunchStep::Failed { error: LaunchError::VenvFailed { stderr } })) && (
        e matches LaunchEvent::Ran { outcome: RunOutcome::LaunchFailed { detail } } ==> r == (
        LaunchStep::Failed { error: LaunchError::VenvLaunchFailed { detail } }))),
        s matches LaunchStep::CheckVenvPython { dir, venv_python } ==> ((e == (
        LaunchEvent::Probed { exists: true }) ==> r == (LaunchStep::InstallDeps {
            dir: dir,
            venv_python: venv_python,
        })) && (e == (LaunchEvent::Probed { exists: false }) ==> r == (LaunchStep::Failed {
            error: LaunchError::VenvPythonMissing { path: venv_python },
        }))),
        s matches LaunchStep::InstallDeps { dir, venv_python } ==> ((e matches LaunchEvent::Ran {
            outcome: RunOutcome::Completed { .. },
        } ==> r == (LaunchStep::CheckParentPackage { dir: dir, venv_python: venv_python })) && (
        e matches LaunchEvent::Ran { outcome: RunOutcome::LaunchFailed { detail } } ==> r == (
        LaunchStep::Failed { error: LaunchError::PipLaunchFailed { detail } }))),
        s matches LaunchStep::CheckParentPackage { dir, venv_python } ==> ((e == (
        LaunchEvent::Probed { exists: true }) ==> r == (LaunchStep::InstallParent {
            dir: dir,
            venv_python: venv_python,
        })) && (e == (LaunchEvent::Probed { exists: false }) ==> r == (LaunchStep::CheckMain {
            dir: dir,
            venv_python: venv_python,
        }))),
        s matches LaunchStep::InstallParent { dir, venv_python } ==> (e matches LaunchEvent::Ran {
            ..
        } ==> r == (LaunchStep::CheckMain { dir: dir, venv_python: venv_python })),
        s matches LaunchStep::CheckMain { dir, venv_python } ==> ((e == (LaunchEvent::Probed {
            exists: true,
        }) ==> r == (LaunchStep::Spawn { dir: dir, venv_python: venv_python })) && (e == (
        LaunchEvent::Probed { exists: false }) ==> r == (LaunchStep::Failed {
            error: LaunchError::MainMissing,
        }))),
        s matches LaunchStep::Spawn { dir, venv_python } ==> ((e matches LaunchEvent::Spawned {
            result: Ok(pid),
        } ==> r == (LaunchStep::Done { pid: pid })) && (e matches LaunchEvent::Spawned {
            result: Err(m),
        } ==> r == (LaunchStep::Failed { error: LaunchError::SpawnFailed { detail: m } }))),
{
    match (s, e) {
        (LaunchStep::FindDevDir, LaunchEvent::DevParent { parent }) => match parent {
            Some(d) => {
                let mut candidate = String::from_str(d.as_str());
                candidate.append("/resource/mcp-client-python/api");
                LaunchStep::ProbeDevDir { candidate }
            },
            None => LaunchStep::FindResourceDir,
        },
        (LaunchStep::ProbeDevDir { candidate }, LaunchEvent::Probed { exists }) => {
            if exists {
                LaunchStep::CheckRequirements { dir: candidate }
            } else {
                LaunchStep::FindResourceDir
            }
        },
        (LaunchStep::FindResourceDir, LaunchEvent::ResourceParent { parent }) => match parent {
            Some(p) => {
                let mut candidate = String::from_str(p.as_str());
                candidate.append("/resource/mcp-client-python/api");
                LaunchStep::ProbeResourceDir { candidate }
            },
            None => LaunchStep::Failed { error: LaunchError::DirNotFound },
        },
        (LaunchStep::ProbeResourceDir { candidate }, LaunchEvent::Probed { exists }) => {
            if exists {
                LaunchStep::CheckRequirements { dir: candidate }
            } else {
                LaunchStep::Failed { error: LaunchError::DirNotFound }
            }
        },
        (LaunchStep::CheckRequirements { dir }, LaunchEvent::Probed { exists }) => {
            if exists {
                LaunchStep::FindPython { dir }
            } else {
                LaunchStep::Failed { error: LaunchError::RequirementsMissing }
            }
        },
        (LaunchStep::FindPython { dir }, LaunchEvent::PythonProbes { probes }) => {
            match select_python(&probes) {
                Some(i) => match &probes[i].path {
                    Some(p) => LaunchStep::CheckVenv { dir, python: p.clone() },
                    None => {
                        proof {
                            assert(false);
                        }
                        LaunchStep::Failed { error: LaunchError::PythonNotFound }
                    },
                },
                None => LaunchStep::Failed { error: LaunchError::PythonNotFound },
            }
        },
        (LaunchStep::CheckVenv { dir, python }, LaunchEvent::Probed { exists }) => {
            if exists {
                let mut venv_dir = String::from_str(dir.as_str());
                venv_dir.append("/venv");
                let venv_python = venv_python_path(venv_dir.as_str(), windows);
                LaunchStep::CheckVenvPython { dir, venv_python }
            } else {
                LaunchStep::CreateVenv { dir, python }
            }
        },
        (LaunchStep::CreateVenv { dir, python: _ }, LaunchEvent::Ran { outcome }) => match outcome {
            RunOutcome::Completed { success: true, stderr: _ } => {
                let mut venv_dir = String::from_str(dir.as_str());
                venv_dir.append("/venv");
                let venv_python = venv_python_path(venv_dir.as_str(), windows);
                LaunchStep::CheckVenvPython { dir, venv_python }
            },
            RunOutcome::Completed { success: false, stderr } => LaunchStep::Failed {
                error: LaunchError::VenvFailed { stderr },
            },
            RunOutcome::LaunchFailed { detail } => LaunchStep::Failed {
                error: LaunchError::VenvLaunchFailed { detail },
            },
        },
        (LaunchStep::CheckVenvPython { dir, venv_python }, LaunchEvent::Probed { exists }) => {
            if exists {
                LaunchStep::InstallDeps { dir, venv_python }
            } else {
                LaunchStep::Failed { error: LaunchError::VenvPythonMissing { path: venv_python } }
            }
        },
        (LaunchStep::InstallDeps { dir, venv_python }, LaunchEvent::Ran { outcome }) => match outcome {
            RunOutcome::Completed { .. } => LaunchStep::CheckParentPackage { dir, venv_python },
            RunOutcome::LaunchFailed { detail } => LaunchStep::Failed {
                error: LaunchError::PipLaunchFailed { detail },
            },
        },
        (LaunchStep::CheckParentPackage { dir, venv_python }, LaunchEvent::Probed { exists }) => {
            if exists {
                LaunchStep::InstallParent { dir, venv_python }
            } else {
                LaunchStep::CheckMain { dir, venv_python }
            }
        },
        (LaunchStep::InstallParent { dir, venv_python }, LaunchEvent::Ran { outcome: _ }) => {
            LaunchStep::CheckMain { dir, venv_python }
        },
        (LaunchStep::CheckMain { dir, venv_python }, LaunchEvent::Probed { exists }) => {
            if exists {
                LaunchStep::Spawn { dir, venv_python }
            } else {
                LaunchStep::Failed { error: LaunchError::MainMissing }
            }
        },
        (LaunchStep::Spawn { dir: _, venv_python: _ }, LaunchEvent::Spawned { result }) => match result {
            Ok(pid) => LaunchStep::Done { pid },
            Err(m) => LaunchStep::Failed { error: LaunchError::SpawnFailed { detail: m } },
        },
        _ => {
            proof {
                assert(false);
            }
            LaunchStep::AlreadyRunning
        },
    }
}

} // verus!
