use mcp_supervisor::paths::{bun_fallback_path, join_path, mcp_server_dir, venv_python_path};
use mcp_supervisor::status::{
    bun_status_from_probe, health_from_probe, mcp_status_from_probe, BunStatus, McpServerStatus,
};

#[test]
fn join_path_inserts_one_separator() {
    assert_eq!(join_path("/srv/app", "server.ts"), "/srv/app/server.ts");
    assert_eq!(join_path("", "package.json"), "/package.json");
}

#[test]
fn bun_fallback_is_under_home() {
    assert_eq!(bun_fallback_path("/home/u"), "/home/u/.bun/bin/bun");
}

#[test]
fn mcp_dir_is_under_home() {
    assert_eq!(mcp_server_dir("/home/u"), "/home/u/.wirecraft/mcp-server");
}

#[test]
fn venv_python_by_platform() {
    assert_eq!(venv_python_path("/x/venv", false), "/x/venv/bin/python");
    assert_eq!(venv_python_path("/x/venv", true), "/x/venv/Scripts/python.exe");
}

#[test]
fn bun_status_found_with_version() {
    let r = bun_status_from_probe(Some("/usr/bin/bun".to_string()), Some("1.1.0".to_string()));
    assert_eq!(
        r,
        BunStatus {
            installed: true,
            version: Some("1.1.0".to_string()),
            path: Some("/usr/bin/bun".to_string()),
        }
    );
}

#[test]
fn bun_status_found_without_version() {
    let r = bun_status_from_probe(Some("/usr/bin/bun".to_string()), None);
    assert_eq!(
        r,
        BunStatus { installed: true, version: None, path: Some("/usr/bin/bun".to_string()) }
    );
}

#[test]
fn bun_status_missing_ignores_version() {
    let r = bun_status_from_probe(None, Some("1.1.0".to_string()));
    assert_eq!(r, BunStatus { installed: false, version: None, path: None });
}

#[test]
fn mcp_status_connected() {
    let r = mcp_status_from_probe(true);
    assert_eq!(r, McpServerStatus { running: true, port: Some(3055), pid: None });
}

#[test]
fn mcp_status_not_connected() {
    let r = mcp_status_from_probe(false);
    assert_eq!(r, McpServerStatus { running: false, port: None, pid: None });
}

#[test]
fn health_probe_connected_is_ok() {
    assert_eq!(health_from_probe(true), Ok(true));
}

#[test]
fn health_probe_failed_is_error_not_false() {
    assert_eq!(health_from_probe(false), Err("Health check failed".to_string()));
}
