//! Status records reported to the front end, and how they are derived
//! from the probes the runner performs.

use vstd::prelude::*;
use vstd::string::*;

verus! {

/// Fixed local port on which the MCP server listens.
pub const MCP_PORT: u16 = 3055;

/// Fixed local port on which the FastAPI server listens.
pub const FASTAPI_PORT: u16 = 8000;

/// Installation report for the JavaScript runtime.
#[derive(Debug, PartialEq, Eq)]
pub struct BunStatus {
    pub installed: bool,
    pub version: Option<String>,
    pub path: Option<String>,
}

/// Liveness report for the MCP server.
#[derive(Debug, PartialEq, Eq)]
pub struct McpServerStatus {
    pub running: bool,
    pub port: Option<u16>,
    pub pid: Option<u32>,
}

/// Liveness report for the FastAPI server.
#[derive(Debug, PartialEq, Eq)]
pub struct FastAPIStatus {
    pub running: bool,
    pub port: Option<u16>,
    pub pid: Option<u32>,
    pub health_check_url: Option<String>,
}

/// Builds the runtime's installation report from the locator's outcome and
/// from the version its `--version` query reported, if it succeeded.
/// A missing executable yields an empty record, whatever the version
/// argument says.
pub fn bun_status_from_probe(path: Option<String>, version: Option<String>) -> (r: BunStatus)
    ensures
        r.installed == path is Some,
        path is Some ==> r.path == path && r.version == version,
        path is None ==> r.path is None && r.version is None,
{
    match path {
        Some(p) => BunStatus { installed: true, version: version, path: Some(p) },
        None => BunStatus { installed: false, version: None, path: None },
    }
}

/// Status of the MCP server as inferred from one TCP connect attempt to
/// its fixed port.  No process id is tracked for this server.
pub fn mcp_status_from_probe(connected: bool) -> (r: McpServerStatus)
    ensures
        r.running == connected,
        connected ==> r.port == Some(MCP_PORT),
        !connected ==> r.port is None,
        r.pid is None,
{
    if connected {
        McpServerStatus { running: true, port: Some(MCP_PORT), pid: None }
    } else {
        McpServerStatus { running: false, port: None, pid: None }
    }
}

/// Outcome of the FastAPI health probe: a successful TCP connect within
/// the allowed time is reported as healthy; anything else is a failed
/// health check, never a quiet `false`.
pub fn health_from_probe(connected: bool) -> (r: Result<bool, String>)
    ensures
        connected ==> (r matches Ok(b) && b),
        !connected ==> (r matches Err(m) && m@ == "Health check failed"@),
{
    if connected {
        Ok(true)
    } else {
        Err(String::from_str("Health check failed"))
    }
}

} // verus!
