//! Installing and starting the MCP server.
//!
//! Both operations are sequences of outside work — directory creation,
//! existence checks, a recursive copy, process spawns — interleaved with
//! decisions.  Each sequence is a state machine here: every non-terminal
//! step names the piece of outside work the runner must do next, and the
//! outcome of that work is the event that drives the next step.  The
//! decisions, the order of the steps, and the error reported for every
//! outcome are all verified.

use vstd::prelude::*;
use vstd::string::*;
use crate::command::RunOutcome;

verus! {

/// Why installing the MCP server failed.
#[derive(Debug, Clone, PartialEq, Eq)]
pub enum McpInstallError {
    HomeNotSet,
    CreateDirFailed { detail: String },
    CurrentDirFailed { detail: String },
    ProjectRootNotFound,
    BundleNotFound,
    CopyFailed { detail: String },
    BunMissing { detail: String },
    DepsLaunchFailed { detail: String },
    DepsFailed { stderr: String },
}

impl McpInstallError {
    /// Report line for the front end.
    pub fn message(&self) -> (r: String)
        ensures
            *self == McpInstallError::HomeNotSet ==> r@ == "Failed to get home directory"@,
            self matches McpInstallError::CreateDirFailed { detail } ==> r@
                == "Failed to create ~/.wirecraft/mcp-server directory: "@ + detail@,
            self matches McpInstallError::CurrentDirFailed { detail } ==> r@
                == "Failed to get current directory: "@ + detail@,
            *self == McpInstallError::ProjectRootNotFound ==> r@
                == "Could not find project root directory"@,
            *self == McpInstallError::BundleNotFound ==> r@
                == "MCP server bundle not found in resources or development path"@,
            self matches McpInstallError::CopyFailed { detail } ==> r@
                == "Failed to copy MCP server files: "@ + detail@,
            self matches McpInstallError::BunMissing { detail } ==> r@
                == "Bun not found for dependency installation: "@ + detail@,
            self matches McpInstallError::DepsLaunchFailed { detail } ==> r@
                == "Failed to run bun install: "@ + detail@,
            self matches McpInstallError::DepsFailed { stderr } ==> r@
                == "Failed to install MCP server dependencies: "@ + stderr@,
    {
        match self {
            McpInstallError::HomeNotSet => String::from_str("Failed to get home directory"),
            McpInstallError::CreateDirFailed { detail } => String::from_str(
                "Failed to create ~/.wirecraft/mcp-server directory: ",
            ).concat(detail.as_str()),
            McpInstallError::CurrentDirFailed { detail } => String::from_str(
                "Failed to get current directory: ",
            ).concat(detail.as_str()),
            McpInstallError::ProjectRootNotFound => String::from_str(
                "Could not find project root directory",
            ),
            McpInstallError::BundleNotFound => String::from_str(
                "MCP server bundle not found in resources or development path",
            ),
            McpInstallError::CopyFailed { detail } => String::from_str(
                "Failed to copy MCP server files: ",
            ).concat(detail.as_str()),
            McpInstallError::BunMissing { detail } => String::from_str(
                "Bun not found for dependency installation: ",
            ).concat(detail.as_str()),
            McpInstallError::DepsLaunchFailed { detail } => String::from_str(
                "Failed to run bun install: ",
            ).concat(detail.as_str()),
            McpInstallError::DepsFailed { stderr } => String::from_str(
                "Failed to install MCP server dependencies: ",
            ).concat(stderr.as_str()),
        }
    }
}

/// Report line when the install sequence reaches `Done`.
pub fn mcp_install_success_message() -> (r: String)
    ensures
        r@ == "MCP Server installed successfully to ~/.wirecraft/mcp-server"@,
{
    String::from_str("MCP Server installed successfully to ~/.wirecraft/mcp-server")
}

/// One step of the install sequence.  Every non-terminal step names the
/// outside work the runner must do next.
#[derive(Debug, Clone, PartialEq, Eq)]
pub enum McpInstallStep {
    /// Create the destination directory, parents included.
    CreateDir { dest: String },
    /// Look up the application's resource directory.
    FindResourceDir { dest: String },
    /// Check whether the direct resource candidate exists.
    ProbeDirect { dest: String, direct: String, nested: String },
    /// Check whether the nested `_up_/_up_` resource candidate exists.
    ProbeNested { dest: String, nested: String },
    /// Read the working directory and take the parent of its parent.
    FindDevRoot { dest: String },
    /// Check whether the development candidate exists.
    ProbeDevCandidate { dest: String, candidate: String },
    /// Copy the bundle from `source` into `dest`, recursively.
    CopyBundle { source: String, dest: String },
    /// Locate the JavaScript runtime.
    FindBun { dest: String },
    /// Run the runtime's dependency install inside `dest`.
    InstallDeps { bun: String, dest: String },
    Done,
    Failed { error: McpInstallError },
}

/// The outcome of the outside work a step asked for.
#[derive(Debug, PartialEq, Eq)]
pub enum McpInstallEvent {
    /// Directory creation finished, with its error when it failed.
    DirMade { error: Option<String> },
    /// The resource directory, when the application has one.
    ResourceDir { dir: Option<String> },
    /// An existence check answered.
    Probed { exists: bool },
    /// Reading the working directory failed with an error, or succeeded
    /// and the parent of its parent is the root, when the chain held.
    DevRootFound { result: Result<Option<String>, String> },
    /// The copy finished, with its error when it failed.
    Copied { error: Option<String> },
    /// The runtime locator answered, with its report when it failed.
    BunFound { result: Result<String, String> },
    /// The dependency install ran.
    DepsRan { outcome: RunOutcome },
}

/// Which event answers which step.
pub open spec fn mcp_install_allows(s: McpInstallStep, e: McpInstallEvent) -> bool {
    match (s, e) {
        (McpInstallStep::CreateDir { .. }, McpInstallEvent::DirMade { .. }) => true,
        (McpInstallStep::FindResourceDir { .. }, McpInstallEvent::ResourceDir { .. }) => true,
        (McpInstallStep::ProbeDirect { .. }, McpInstallEvent::Probed { .. }) => true,
        (McpInstallStep::ProbeNested { .. }, McpInstallEvent::Probed { .. }) => true,
        (McpInstallStep::FindDevRoot { .. }, McpInstallEvent::DevRootFound { .. }) => true,
        (McpInstallStep::ProbeDevCandidate { .. }, McpInstallEvent::Probed { .. }) => true,
        (McpInstallStep::CopyBundle { .. }, McpInstallEvent::Copied { .. }) => true,
        (McpInstallStep::FindBun { .. }, McpInstallEvent::BunFound { .. }) => true,
        (McpInstallStep::InstallDeps { .. }, McpInstallEvent::DepsRan { .. }) => true,
        _ => false,
    }
}

/// First step of the install sequence.  The destination is fixed under
/// the home directory; a missing home directory fails at once.
pub fn mcp_install_init(home: Option<&str>) -> (r: McpInstallStep)
    ensures
        home matches Some(h) ==> (r matches McpInstallStep::CreateDir { dest } && dest@ == h@
            + "/.wirecraft/mcp-server"@),
        home is None ==> r == (McpInstallStep::Failed { error: McpInstallError::HomeNotSet }),
{
    match home {
        Some(h) => McpInstallStep::CreateDir { dest: crate::paths::mcp_server_dir(h) },
        None => McpInstallStep::Failed { error: McpInstallError::HomeNotSet },
    }
}

/// Drives the install sequence one step: from the step that asked for
/// outside work and the outcome of that work to the next step.
///
/// The bundle is searched in a fixed priority order — the direct resource
/// entry, the nested resource entry, the development candidate — and the
/// search stops at the first existing match.  Dependencies are installed
/// only after the copy succeeded, with the located runtime.
pub fn mcp_install_step(s: McpInstallStep, e: McpInstallEvent) -> (r: McpInstallStep)
    requires
        mcp_install_allows(s, e),
    ensures
        s matches McpInstallStep::CreateDir { dest } ==> ((e == (McpInstallEvent::DirMade {
            error: None,
        }) ==> r == (McpInstallStep::FindResourceDir { dest })) && (e matches
        McpInstallEvent::DirMade { error: Some(m) } ==> r == (McpInstallStep::Failed {
            error: McpInstallError::CreateDirFailed { detail: m },
        }))),
        s matches McpInstallStep::FindResourceDir { dest } ==> ((e matches
        McpInstallEvent::ResourceDir { dir: Some(rd) } ==> (r matches McpInstallStep::ProbeDirect {
            dest: d2,
            direct,
            nested,
        } && d2 == dest && direct@ == rd@ + "/mcp-server-bundle"@ && nested@ == rd@
            + "/_up_/_up_/mcp-server-bundle"@)) && (e == (McpInstallEvent::ResourceDir {
            dir: None,
        }) ==> r == (McpInstallStep::FindDevRoot { dest }))),
        s matches McpInstallStep::ProbeDirect { dest, direct, nested } ==> ((e == (
        McpInstallEvent::Probed { exists: true }) ==> r == (McpInstallStep::CopyBundle {
            source: direct,
            dest: dest,
        })) && (e == (McpInstallEvent::Probed { exists: false }) ==> r == (
        McpInstallStep::ProbeNested { dest: dest, nested: nested }))),
        s matches McpInstallStep::ProbeNested { dest, nested } ==> ((e == (
        McpInstallEvent::Probed { exists: true }) ==> r == (McpInstallStep::CopyBundle {
            source: nested,
            dest: dest,
        })) && (e == (McpInstallEvent::Probed { exists: false }) ==> r == (
        McpInstallStep::FindDevRoot { dest }))),
        s matches McpInstallStep::FindDevRoot { dest } ==> ((e matches
        McpInstallEvent::DevRootFound { result: Ok(Some(root)) } ==> (r matches
        McpInstallStep::ProbeDevCandidate { dest: d2, candidate } && d2 == dest && candidate@
            == root@ + "/mcp-server-bundle"@)) && (e == (McpInstallEvent::DevRootFound {
            result: Ok(None),
        }) ==> r == (McpInstallStep::Failed { error: McpInstallError::ProjectRootNotFound })) && (
        e matches McpInstallEvent::DevRootFound { result: Err(m) } ==> r == (
        McpInstallStep::Failed { error: McpInstallError::CurrentDirFailed { detail: m } }))),
        s matches McpInstallStep::ProbeDevCandidate { dest, candidate } ==> ((e == (
        McpInstallEvent::Probed { exists: true }) ==> r == (McpInstallStep::CopyBundle {
            source: candidate,
            dest: dest,
        })) && (e == (McpInstallEvent::Probed { exists: false }) ==> r == (McpInstallStep::Failed {
            error: McpInstallError::BundleNotFound,
        }))),
        s matches McpInstallStep::CopyBundle { source, dest } ==> ((e == (
        McpInstallEvent::Copied { error: None }) ==> r == (McpInstallStep::FindBun { dest })) && (
        e matches McpInstallEvent::Copied { error: Some(m) } ==> r == (McpInstallStep::Failed {
            error: McpInstallError::CopyFailed { detail: m },
        }))),
        s matches McpInstallStep::FindBun { dest } ==> ((e matches McpInstallEvent::BunFound {
            result: Ok(b),
        } ==> r == (McpInstallStep::InstallDeps { bun: b, dest: dest })) && (e matches
        McpInstallEvent::BunFound { result: Err(m) } ==> r == (McpInstallStep::Failed {
            error: McpInstallError::BunMissing { detail: m },
        }))),
        s matches McpInstallStep::InstallDeps { bun, dest } ==> ((e matches
        McpInstallEvent::DepsRan { outcome: RunOutcome::Completed { success: true, .. } } ==> r
            == McpInstallStep::Done) && (e matches McpInstallEvent::DepsRan {
            outcome: RunOutcome::Completed { success: false, stderr },
        } ==> r == (McpInstallStep::Failed {
            error: McpInstallError::DepsFailed { stderr },
        })) && (e matches McpInstallEvent::DepsRan {
            outcome: RunOutcome::LaunchFailed { detail },
        } ==> r == (McpInstallStep::Failed {
            error: McpInstallError::DepsLaunchFailed { detail },
        }))),
{
    match (s, e) {
        (McpInstallStep::CreateDir { dest }, McpInstallEvent::DirMade { error }) => match error {
            None => McpInstallStep::FindResourceDir { dest },
            Some(m) => McpInstallStep::Failed {
                error: McpInstallError::CreateDirFailed { detail: m },
            },
        },
        (McpInstallStep::FindResourceDir { dest }, McpInstallEvent::ResourceDir { dir }) => match dir {
            Some(rd) => {
                let mut direct = String::from_str(rd.as_str());
                direct.append("/mcp-server-bundle");
                let mut nested = String::from_str(rd.as_str());
                nested.append("/_up_/_up_/mcp-server-bundle");
                McpInstallStep::ProbeDirect { dest, direct, nested }
            },
            None => McpInstallStep::FindDevRoot { dest },
        },
        (McpInstallStep::ProbeDirect { dest, direct, nested }, McpInstallEvent::Probed {
            exists,
        }) => {
            if exists {
                McpInstallStep::CopyBundle { source: direct, dest }
            } else {
                McpInstallStep::ProbeNested { dest, nested }
            }
        },
        (McpInstallStep::ProbeNested { dest, nested }, McpInstallEvent::Probed { exists }) => {
            if exists {
                McpInstallStep::CopyBundle { source: nested, dest }
            } else {
                McpInstallStep::FindDevRoot { dest }
            }
        },
        (McpInstallStep::FindDevRoot { dest }, McpInstallEvent::DevRootFound { result }) => match result {
            Ok(Some(root)) => {
                let mut candidate = String::from_str(root.as_str());
                candidate.append("/mcp-server-bundle");
                McpInstallStep::ProbeDevCandidate { dest, candidate }
            },
            Ok(None) => McpInstallStep::Failed { error: McpInstallError::ProjectRootNotFound },
            Err(m) => McpInstallStep::Failed {
                error: McpInstallError::CurrentDirFailed { detail: m },
            },
        },
        (McpInstallStep::ProbeDevCandidate { dest, candidate }, McpInstallEvent::Probed {
            exists,
        }) => {
            if exists {
                McpInstallStep::CopyBundle { source: candidate, dest }
            } else {
                McpInstallStep::Failed { error: McpInstallError::BundleNotFound }
            }
        },
        (McpInstallStep::CopyBundle { source: _, dest }, McpInstallEvent::Copied { error }) => match error {
            None => McpInstallStep::FindBun { dest },
            Some(m) => McpInstallStep::Failed { error: McpInstallError::CopyFailed { detail: m } },
        },
        (McpInstallStep::FindBun { dest }, McpInstallEvent::BunFound { result }) => match result {
            Ok(b) => McpInstallStep::InstallDeps { bun: b, dest },
            Err(m) => McpInstallStep::Failed { error: McpInstallError::BunMissing { detail: m } },
        },
        (McpInstallStep::InstallDeps { bun: _, dest: _ }, McpInstallEvent::DepsRan {
            outcome,
        }) => match outcome {
            RunOutcome::Completed { success: true, stderr: _ } => McpInstallStep::Done,
            RunOutcome::Completed { success: false, stderr } => McpInstallStep::Failed {
                error: McpInstallError::DepsFailed { stderr },
            },
            RunOutcome::LaunchFailed { detail } => McpInstallStep::Failed {
                error: McpInstallError::DepsLaunchFailed { detail },
            },
        },
        _ => {
            proof {
                assert(false);
            }
            McpInstallStep::Done
        },
    }
}

/// The MCP server counts as installed when both its entry script
/// `server.ts` and its package file `package.json` are present in the
/// install directory.
pub fn mcp_installed(server_file_exists: bool, package_file_exists: bool) -> (r: bool)
    ensures
        r == (server_file_exists && package_file_exists),
{
    server_file_exists && package_file_exists
}

/// Report line when the start sequence reaches `Done` with the server
/// child's id.
pub fn mcp_start_success_message(pid: u32) -> (r: String)
    ensures
        r@ == "MCP Server started with PID: "@ + crate::digits::decimal_digits(pid as nat),
{
    String::from_str("MCP Server started with PID: ").concat(
        crate::digits::u32_to_decimal(pid).as_str(),
    )
}

/// Why starting the MCP server failed.
#[derive(Debug, PartialEq, Eq)]
pub enum McpStartError {
    HomeNotSet,
    NotInstalled,
    BunMissing { detail: String },
    ServerSpawnFailed { detail: String },
    SocketSpawnFailed { detail: String },
}

impl McpStartError {
    /// Report line for the front end.
    pub fn message(&self) -> (r: String)
        ensures
            *self == McpStartError::HomeNotSet ==> r@ == "Failed to get home directory"@,
            *self == McpStartError::NotInstalled ==> r@
                == "MCP server not installed. Please install it first."@,
            self matches McpStartError::BunMissing { detail } ==> r@
                == "Bun not found for starting MCP server: "@ + detail@,
            self matches McpStartError::ServerSpawnFailed { detail } ==> r@
                == "Failed to start MCP server: "@ + detail@,
            self matches McpStartError::SocketSpawnFailed { detail } ==> r@
                == "Failed to start socket server: "@ + detail@,
    {
        match self {
            McpStartError::HomeNotSet => String::from_str("Failed to get home directory"),
            McpStartError::NotInstalled => String::from_str(
                "MCP server not installed. Please install it first.",
            ),
            McpStartError::BunMissing { detail } => String::from_str(
                "Bun not found for starting MCP server: ",
            ).concat(detail.as_str()),
            McpStartError::ServerSpawnFailed { detail } => String::from_str(
                "Failed to start MCP server: ",
            ).concat(detail.as_str()),
            McpStartError::SocketSpawnFailed { detail } => String::from_str(
                "Failed to start socket server: ",
            ).concat(detail.as_str()),
        }
    }
}

/// One step of the start sequence.  The server script and the socket
/// script are spawned in this order, both with the located runtime and
/// from the install directory.
#[derive(Debug, PartialEq, Eq)]
pub enum McpStartStep {
    /// Check whether the install directory exists.
    CheckInstalled { dir: String },
    /// Locate the JavaScript runtime.
    FindBun { dir: String },
    /// Spawn `server.ts` inside `dir`.
    SpawnServer { bun: String, dir: String },
    /// Spawn `socket.ts` inside `dir`; the server child's id is kept.
    SpawnSocket { bun: String, dir: String, pid: u32 },
    /// Both children are up; `pid` is the server child's id.
    Done { pid: u32 },
    Failed { error: McpStartError },
}

/// The outcome of the outside work a start step asked for.
#[derive(Debug, PartialEq, Eq)]
pub enum McpStartEvent {
    /// An existence check answered.
    Probed { exists: bool },
    /// The runtime locator answered, with its report when it failed.
    BunFound { result: Result<String, String> },
    /// A spawn finished: the child's id, or the error.
    Spawned { result: Result<u32, String> },
}

/// Which event answers which step.
pub open spec fn mcp_start_allows(s: McpStartStep, e: McpStartEvent) -> bool {
    match (s, e) {
        (McpStartStep::CheckInstalled { .. }, McpStartEvent::Probed { .. }) => true,
        (McpStartStep::FindBun { .. }, McpStartEvent::BunFound { .. }) => true,
        (McpStartStep::SpawnServer { .. }, McpStartEvent::Spawned { .. }) => true,
        (McpStartStep::SpawnSocket { .. }, McpStartEvent::Spawned { .. }) => true,
        _ => false,
    }
}

/// First step of the start sequence: the install directory is fixed under
/// the home directory; a missing home directory fails at once.
pub fn mcp_start_init(home: Option<&str>) -> (r: McpStartStep)
    ensures
        home matches Some(h) ==> (r matches McpStartStep::CheckInstalled { dir } && dir@ == h@
            + "/.wirecraft/mcp-server"@),
        home is None ==> r == (McpStartStep::Failed { error: McpStartError::HomeNotSet }),
{
    match home {
        Some(h) => McpStartStep::CheckInstalled { dir: crate::paths::mcp_server_dir(h) },
        None => McpStartStep::Failed { error: McpStartError::HomeNotSet },
    }
}

/// Drives the start sequence one step.  Nothing is spawned before the
/// install directory was seen to exist and the runtime was located, and
/// the socket script is spawned only after the server script was.
pub fn mcp_start_step(s: McpStartStep, e: McpStartEvent) -> (r: McpStartStep)
    requires
        mcp_start_allows(s, e),
    ensures
        s matches McpStartStep::CheckInstalled { dir } ==> ((e == (McpStartEvent::Probed {
            exists: true,
        }) ==> r == (McpStartStep::FindBun { dir })) && (e == (McpStartEvent::Probed {
            exists: false,
        }) ==> r == (McpStartStep::Failed { error: McpStartError::NotInstalled }))),
        s matches McpStartStep::FindBun { dir } ==> ((e matches McpStartEvent::BunFound {
            result: Ok(b),
        } ==> r == (McpStartStep::SpawnServer { bun: b, dir: dir })) && (e matches
        McpStartEvent::BunFound { result: Err(m) } ==> r == (McpStartStep::Failed {
            error: McpStartError::BunMissing { detail: m },
        }))),
        s matches McpStartStep::SpawnServer { bun, dir } ==> ((e matches McpStartEvent::Spawned {
            result: Ok(pid),
        } ==> r == (McpStartStep::SpawnSocket { bun: bun, dir: dir, pid: pid })) && (e matches
        McpStartEvent::Spawned { result: Err(m) } ==> r == (McpStartStep::Failed {
            error: McpStartError::ServerSpawnFailed { detail: m },
        }))),
        s matches McpStartStep::SpawnSocket { bun, dir, pid } ==> ((e matches
        McpStartEvent::Spawned { result: Ok(p2) } ==> r == (McpStartStep::Done { pid: pid })) && (
        e matches McpStartEvent::Spawned { result: Err(m) } ==> r == (McpStartStep::Failed {
            error: McpStartError::SocketSpawnFailed { detail: m },
        }))),
{
    match (s, e) {
        (McpStartStep::CheckInstalled { dir }, McpStartEvent::Probed { exists }) => {
            if exists {
                McpStartStep::FindBun { dir }
            } else {
                McpStartStep::Failed { error: McpStartError::NotInstalled }
            }
        },
        (McpStartStep::FindBun { dir }, McpStartEvent::BunFound { result }) => match result {
            Ok(b) => McpStartStep::SpawnServer { bun: b, dir },
            Err(m) => McpStartStep::Failed { error: McpStartError::BunMissing { detail: m } },
        },
        (McpStartStep::SpawnServer { bun, dir }, McpStartEvent::Spawned { result }) => match result {
            Ok(pid) => McpStartStep::SpawnSocket { bun, dir, pid },
            Err(m) => McpStartStep::Failed {
                error: McpStartError::ServerSpawnFailed { detail: m },
            },
        },
        (McpStartStep::SpawnSocket { bun: _, dir: _, pid }, McpStartEvent::Spawned {
            result,
        }) => match result {
            Ok(_) => McpStartStep::Done { pid },
            Err(m) => McpStartStep::Failed {
                error: McpStartError::SocketSpawnFailed { detail: m },
            },
        },
        _ => {
            proof {
                assert(false);
            }
            McpStartStep::Done { pid: 0 }
        },
    }
}

} // verus!
