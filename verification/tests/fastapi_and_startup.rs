use mcp_supervisor::command::RunOutcome;
use mcp_supervisor::digits::u32_to_decimal;
use mcp_supervisor::fastapi::{
    already_running_message, fastapi_start_success_message, launch_init, launch_step, LaunchError,
    LaunchEvent, LaunchStep,
};
use mcp_supervisor::locate::PythonProbe;
use mcp_supervisor::startup::{
    startup_init, startup_step, StartupEvent, StartupStep, STARTUP_DELAY_SECS,
};

fn usable(path: &str) -> PythonProbe {
    PythonProbe { path: Some(path.to_string()), version_ok: true }
}

#[test]
fn launch_guard_stops_when_already_up() {
    assert_eq!(launch_init(true), LaunchStep::AlreadyRunning);
    assert_eq!(launch_init(false), LaunchStep::FindDevDir);
    assert_eq!(already_running_message(), "FastAPI server is already running");
}

#[test]
fn launch_happy_path_with_existing_venv() {
    let dir = "/proj/resource/mcp-client-python/api".to_string();

    let s = launch_step(
        false,
        LaunchStep::FindDevDir,
        LaunchEvent::DevParent { parent: Some("/proj".to_string()) },
    );
    assert_eq!(s, LaunchStep::ProbeDevDir { candidate: dir.clone() });

    let s = launch_step(false, s, LaunchEvent::Probed { exists: true });
    assert_eq!(s, LaunchStep::CheckRequirements { dir: dir.clone() });

    let s = launch_step(false, s, LaunchEvent::Probed { exists: true });
    assert_eq!(s, LaunchStep::FindPython { dir: dir.clone() });

    let s = launch_step(
        false,
        s,
        LaunchEvent::PythonProbes { probes: vec![usable("/usr/bin/python3.11")] },
    );
    assert_eq!(
        s,
        LaunchStep::CheckVenv { dir: dir.clone(), python: "/usr/bin/python3.11".to_string() }
    );

    // the virtual environment already exists: no creation step
    let s = launch_step(false, s, LaunchEvent::Probed { exists: true });
    let venv_python = format!("{}/venv/bin/python", dir);
    assert_eq!(
        s,
        LaunchStep::CheckVenvPython { dir: dir.clone(), venv_python: venv_python.clone() }
    );

    let s = launch_step(false, s, LaunchEvent::Probed { exists: true });
    assert_eq!(
        s,
        LaunchStep::InstallDeps { dir: dir.clone(), venv_python: venv_python.clone() }
    );

    // a dependency install that ran but failed is tolerated
    let s = launch_step(
        false,
        s,
        LaunchEvent::Ran {
            outcome: RunOutcome::Completed { success: false, stderr: "version clash".to_string() },
        },
    );
    assert_eq!(
        s,
        LaunchStep::CheckParentPackage { dir: dir.clone(), venv_python: venv_python.clone() }
    );

    // a parent package is present and its install fails: tolerated too
    let s = launch_step(false, s, LaunchEvent::Probed { exists: true });
    assert_eq!(
        s,
        LaunchStep::InstallParent { dir: dir.clone(), venv_python: venv_python.clone() }
    );
    let s = launch_step(
        false,
        s,
        LaunchEvent::Ran { outcome: RunOutcome::LaunchFailed { detail: "no pip".to_string() } },
    );
    assert_eq!(s, LaunchStep::CheckMain { dir: dir.clone(), venv_python: venv_python.clone() });

    let s = launch_step(false, s, LaunchEvent::Probed { exists: true });
    assert_eq!(s, LaunchStep::Spawn { dir, venv_python });

    let s = launch_step(false, s, LaunchEvent::Spawned { result: Ok(4242) });
    assert_eq!(s, LaunchStep::Done { pid: 4242 });
    assert_eq!(fastapi_start_success_message(4242), "FastAPI server started with PID: 4242");
}

#[test]
fn decimal_rendering_exact() {
    assert_eq!(u32_to_decimal(0), "0");
    assert_eq!(u32_to_decimal(10), "10");
    assert_eq!(u32_to_decimal(321), "321");
    assert_eq!(u32_to_decimal(u32::MAX), "4294967295");
}

#[test]
fn launch_dir_search_dev_then_resource() {
    // no development parent: the resource layout is consulted
    let s = launch_step(false, LaunchStep::FindDevDir, LaunchEvent::DevParent { parent: None });
    assert_eq!(s, LaunchStep::FindResourceDir);

    // a development candidate that does not exist falls through as well
    let s = launch_step(
        false,
        LaunchStep::ProbeDevDir { candidate: "/proj/resource/mcp-client-python/api".to_string() },
        LaunchEvent::Probed { exists: false },
    );
    assert_eq!(s, LaunchStep::FindResourceDir);

    let s = launch_step(
        false,
        s,
        LaunchEvent::ResourceParent { parent: Some("/app".to_string()) },
    );
    assert_eq!(
        s,
        LaunchStep::ProbeResourceDir {
            candidate: "/app/resource/mcp-client-python/api".to_string(),
        }
    );

    let s2 = launch_step(false, s.clone(), LaunchEvent::Probed { exists: true });
    assert_eq!(
        s2,
        LaunchStep::CheckRequirements {
            dir: "/app/resource/mcp-client-python/api".to_string(),
        }
    );

    // neither layout exists: the launch fails
    let s = launch_step(false, s, LaunchEvent::Probed { exists: false });
    assert_eq!(s, LaunchStep::Failed { error: LaunchError::DirNotFound });

    let s = launch_step(
        false,
        LaunchStep::FindResourceDir,
        LaunchEvent::ResourceParent { parent: None },
    );
    assert_eq!(s, LaunchStep::Failed { error: LaunchError::DirNotFound });
    assert_eq!(
        LaunchError::DirNotFound.message(),
        "FastAPI directory not found. Expected at resource/mcp-client-python/api"
    );
}

#[test]
fn launch_venv_creation_and_windows_interpreter() {
    let dir = "/api".to_string();
    let s = launch_step(
        true,
        LaunchStep::CheckVenv { dir: dir.clone(), python: "/py".to_string() },
        LaunchEvent::Probed { exists: false },
    );
    assert_eq!(s, LaunchStep::CreateVenv { dir: dir.clone(), python: "/py".to_string() });

    let s = launch_step(
        true,
        s,
        LaunchEvent::Ran {
            outcome: RunOutcome::Completed { success: true, stderr: String::new() },
        },
    );
    assert_eq!(
        s,
        LaunchStep::CheckVenvPython {
            dir: dir.clone(),
            venv_python: "/api/venv/Scripts/python.exe".to_string(),
        }
    );

    // the freshly created environment lacks its interpreter
    let s = launch_step(true, s, LaunchEvent::Probed { exists: false });
    assert_eq!(
        s,
        LaunchStep::Failed {
            error: LaunchError::VenvPythonMissing {
                path: "/api/venv/Scripts/python.exe".to_string(),
            },
        }
    );
    assert_eq!(
        LaunchError::VenvPythonMissing { path: "/v/p".to_string() }.message(),
        "Virtual environment Python not found at: /v/p"
    );
}

#[test]
fn launch_failures_report_exactly() {
    let dir = "/api".to_string();

    let s = launch_step(
        false,
        LaunchStep::CheckRequirements { dir: dir.clone() },
        LaunchEvent::Probed { exists: false },
    );
    assert_eq!(s, LaunchStep::Failed { error: LaunchError::RequirementsMissing });
    assert_eq!(
        LaunchError::RequirementsMissing.message(),
        "requirements.txt not found in FastAPI directory"
    );

    let s = launch_step(
        false,
        LaunchStep::FindPython { dir: dir.clone() },
        LaunchEvent::PythonProbes {
            probes: vec![PythonProbe { path: Some("/p".to_string()), version_ok: false }],
        },
    );
    assert_eq!(s, LaunchStep::Failed { error: LaunchError::PythonNotFound });
    assert_eq!(LaunchError::PythonNotFound.message(), "Python executable not found");

    let create = LaunchStep::CreateVenv { dir: dir.clone(), python: "/py".to_string() };
    let s = launch_step(
        false,
        create.clone(),
        LaunchEvent::Ran {
            outcome: RunOutcome::Completed { success: false, stderr: "ensurepip".to_string() },
        },
    );
    assert_eq!(
        s,
        LaunchStep::Failed { error: LaunchError::VenvFailed { stderr: "ensurepip".to_string() } }
    );
    assert_eq!(
        LaunchError::VenvFailed { stderr: "ensurepip".to_string() }.message(),
        "Failed to create virtual environment: ensurepip"
    );

    let s = launch_step(
        false,
        create,
        LaunchEvent::Ran { outcome: RunOutcome::LaunchFailed { detail: "no exec".to_string() } },
    );
    assert_eq!(
        s,
        LaunchStep::Failed {
            error: LaunchError::VenvLaunchFailed { detail: "no exec".to_string() },
        }
    );
    assert_eq!(
        LaunchError::VenvLaunchFailed { detail: "no exec".to_string() }.message(),
        "Failed to create virtual environment: no exec"
    );

    let s = launch_step(
        false,
        LaunchStep::InstallDeps { dir: dir.clone(), venv_python: "/vp".to_string() },
        LaunchEvent::Ran { outcome: RunOutcome::LaunchFailed { detail: "no pip".to_string() } },
    );
    assert_eq!(
        s,
        LaunchStep::Failed { error: LaunchError::PipLaunchFailed { detail: "no pip".to_string() } }
    );
    assert_eq!(
        LaunchError::PipLaunchFailed { detail: "no pip".to_string() }.message(),
        "Failed to install dependencies: no pip"
    );

    // without a parent package the sequence skips straight to the entry script
    let s = launch_step(
        false,
        LaunchStep::CheckParentPackage { dir: dir.clone(), venv_python: "/vp".to_string() },
        LaunchEvent::Probed { exists: false },
    );
    assert_eq!(s, LaunchStep::CheckMain { dir: dir.clone(), venv_python: "/vp".to_string() });

    let s = launch_step(false, s, LaunchEvent::Probed { exists: false });
    assert_eq!(s, LaunchStep::Failed { error: LaunchError::MainMissing });
    assert_eq!(LaunchError::MainMissing.message(), "main.py not found in FastAPI directory");

    let s = launch_step(
        false,
        LaunchStep::Spawn { dir, venv_python: "/vp".to_string() },
        LaunchEvent::Spawned { result: Err("fork failed".to_string()) },
    );
    assert_eq!(
        s,
        LaunchStep::Failed { error: LaunchError::SpawnFailed { detail: "fork failed".to_string() } }
    );
    assert_eq!(
        LaunchError::SpawnFailed { detail: "fork failed".to_string() }.message(),
        "Failed to start FastAPI server: fork failed"
    );
}

#[test]
fn startup_skips_installs_when_present() {
    assert_eq!(STARTUP_DELAY_SECS, 2);
    let s = startup_init();
    assert_eq!(s, StartupStep::CheckBun);
    let s = startup_step(s, StartupEvent::BunChecked { installed: Some(true) });
    assert_eq!(s, StartupStep::CheckMcp);
    let s = startup_step(s, StartupEvent::McpChecked { installed: Some(true) });
    assert_eq!(s, StartupStep::StartMcp);
    let s = startup_step(s, StartupEvent::McpStarted { ok: true });
    assert_eq!(s, StartupStep::StartFastapi);
    let s = startup_step(s, StartupEvent::FastapiStarted { ok: true });
    assert_eq!(s, StartupStep::Finished);
}

#[test]
fn startup_installs_only_what_is_missing() {
    let s = startup_step(StartupStep::CheckBun, StartupEvent::BunChecked { installed: Some(false) });
    assert_eq!(s, StartupStep::InstallBun);
    let s = startup_step(s, StartupEvent::BunInstalled { ok: true });
    assert_eq!(s, StartupStep::CheckMcp);
    let s = startup_step(s, StartupEvent::McpChecked { installed: Some(false) });
    assert_eq!(s, StartupStep::InstallMcp);
    let s = startup_step(s, StartupEvent::McpInstalled { ok: true });
    assert_eq!(s, StartupStep::StartMcp);
}

#[test]
fn startup_aborts_on_failed_installs() {
    let s = startup_step(StartupStep::InstallBun, StartupEvent::BunInstalled { ok: false });
    assert_eq!(s, StartupStep::Aborted);
    let s = startup_step(StartupStep::InstallMcp, StartupEvent::McpInstalled { ok: false });
    assert_eq!(s, StartupStep::Aborted);
}

#[test]
fn startup_skips_over_failed_checks() {
    // a check that itself failed is not treated as "missing"
    let s = startup_step(StartupStep::CheckBun, StartupEvent::BunChecked { installed: None });
    assert_eq!(s, StartupStep::CheckMcp);
    let s = startup_step(s, StartupEvent::McpChecked { installed: None });
    assert_eq!(s, StartupStep::StartMcp);
}

#[test]
fn startup_start_failures_do_not_stop_the_run() {
    let s = startup_step(StartupStep::StartMcp, StartupEvent::McpStarted { ok: false });
    assert_eq!(s, StartupStep::StartFastapi);
    let s = startup_step(s, StartupEvent::FastapiStarted { ok: false });
    assert_eq!(s, StartupStep::Finished);
}
