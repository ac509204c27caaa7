//! Construction of the fixed filesystem paths the supervisor works with.
//!
//! Paths are built textually with `/` as the separator, matching the layout
//! the supervisor expects on the platforms it manages.

use vstd::prelude::*;
use vstd::string::*;

verus! {

/// Joins a directory and an entry name with a single `/` separator.
pub fn join_path(dir: &str, name: &str) -> (r: String)
    ensures
        r@ == dir@ + "/"@ + name@,
{
    let mut s = String::from_str(dir);
    s.append("/");
    s.append(name);
    s
}

/// Per-user fallback location of the JavaScript runtime executable,
/// used when the lookup through the system path finds nothing.
pub fn bun_fallback_path(home: &str) -> (r: String)
    ensures
        r@ == home@ + "/.bun/bin/bun"@,
{
    let mut s = String::from_str(home);
    s.append("/.bun/bin/bun");
    s
}

/// Per-user directory that holds the copied MCP server bundle.
pub fn mcp_server_dir(home: &str) -> (r: String)
    ensures
        r@ == home@ + "/.wirecraft/mcp-server"@,
{
    let mut s = String::from_str(home);
    s.append("/.wirecraft/mcp-server");
    s
}

/// Interpreter inside a virtual environment directory: `Scripts/python.exe`
/// on Windows, `bin/python` elsewhere.
pub fn venv_python_path(venv_dir: &str, windows: bool) -> (r: String)
    ensures
        windows ==> r@ == venv_dir@ + "/Scripts/python.exe"@,
        !windows ==> r@ == venv_dir@ + "/bin/python"@,
{
    let mut s = String::from_str(venv_dir);
    if windows {
        s.append("/Scripts/python.exe");
    } else {
        s.append("/bin/python");
    }
    s
}

} // verus!
