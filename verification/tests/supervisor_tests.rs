use dive_core::supervisor::{
    relay_line, site_script, user_agent, HostLauncher, HostProcess, Phase, ShutdownStep,
};

fn running_supervisor() -> HostProcess {
    let mut host = HostProcess::new(
        "/opt/app/resources/mcp-host".to_string(),
        "/opt/app/resources/prebuilt",
        "dive-mcp",
        "/home/u/.dive/host_cache/bus".to_string(),
    );
    host.on_prepared();
    host.on_spawned(true, 4242);
    host
}

#[test]
fn phases_move_forward_through_the_lifecycle() {
    let mut host = HostProcess::new(
        "/opt/app/resources/mcp-host".to_string(),
        "/opt/app/resources/prebuilt",
        "dive-mcp",
        "/home/u/.dive/host_cache/bus".to_string(),
    );
    assert_eq!(host.phase(), Phase::Uninitialized);
    assert_eq!(host.def_mcp_bin_path(), "/opt/app/resources/prebuilt/dive-mcp");
    assert_eq!(host.file_path(), "/home/u/.dive/host_cache/bus");

    host.on_prepared();
    assert_eq!(host.phase(), Phase::Prepared);

    host.on_spawned(true, 31337);
    assert_eq!(host.phase(), Phase::Running);
}

#[test]
fn spawn_failure_keeps_the_supervisor_prepared() {
    let mut host = HostProcess::new(
        "/h".to_string(),
        "/p",
        "dive-mcp",
        "/bus".to_string(),
    );
    host.on_prepared();
    host.on_spawned(false, 0);
    assert_eq!(host.phase(), Phase::Prepared);
}

#[test]
fn shutdown_escalates_and_always_kills() {
    let mut host = running_supervisor();
    let steps = host.destroy(true);
    assert_eq!(
        steps,
        vec![
            ShutdownStep::RemoveRendezvous,
            ShutdownStep::SignalTerm(4242),
            ShutdownStep::SleepGrace,
            ShutdownStep::SignalKill(4242),
            ShutdownStep::SleepGrace,
            ShutdownStep::ForceKill(4242),
            ShutdownStep::AwaitExit(4242),
        ]
    );
    assert_eq!(host.phase(), Phase::Terminated);
}

#[test]
fn shutdown_without_signals_still_kills() {
    let mut host = running_supervisor();
    let steps = host.destroy(false);
    assert_eq!(
        steps,
        vec![
            ShutdownStep::RemoveRendezvous,
            ShutdownStep::ForceKill(4242),
            ShutdownStep::AwaitExit(4242),
        ]
    );
}

#[test]
fn shutdown_is_idempotent() {
    let mut host = running_supervisor();
    let first = host.destroy(true);
    assert!(!first.is_empty());
    let second = host.destroy(true);
    assert!(second.is_empty());
    assert_eq!(host.phase(), Phase::Terminated);
}

#[test]
fn shutdown_before_spawn_only_removes_the_rendezvous() {
    let mut host = HostProcess::new(
        "/h".to_string(),
        "/p",
        "dive-mcp",
        "/bus".to_string(),
    );
    host.on_prepared();
    let steps = host.destroy(true);
    assert_eq!(steps, vec![ShutdownStep::RemoveRendezvous]);
    assert_eq!(host.phase(), Phase::Terminated);
}

#[test]
fn bundled_spawn_plan_pins_command_and_environment() {
    let host = running_supervisor();
    let launcher = HostLauncher::BundledPython {
        python_bin: "/home/u/.dive/bin/python/bin/python3".to_string(),
        deps_dir: "/home/u/.dive/host_cache/deps".to_string(),
    };
    let plan = host.spawn_plan(
        &launcher,
        "/usr/bin:/bin",
        "/home/u/.dive/config",
        "/home/u/.dive/host_cache",
        "0.9.3",
    );
    assert_eq!(plan.program, "/home/u/.dive/bin/python/bin/python3");
    assert_eq!(plan.cwd, "/opt/app/resources/mcp-host");
    assert!(plan.pipe_output);
    assert_eq!(
        plan.args,
        vec![
            "-I".to_string(),
            "-c".to_string(),
            "import site; site.addsitedir('/opt/app/resources/mcp-host'); site.addsitedir('/home/u/.dive/host_cache/deps'); from dive_mcp_host.httpd._main import main; main()".to_string(),
            "--port".to_string(),
            "0".to_string(),
            "--report_status_file".to_string(),
            "/home/u/.dive/host_cache/bus".to_string(),
            "--log_level".to_string(),
            "INFO".to_string(),
        ]
    );
    assert_eq!(
        plan.env_overrides,
        vec![
            ("PATH".to_string(), "/usr/bin:/bin".to_string()),
            ("DIVE_CONFIG_DIR".to_string(), "/home/u/.dive/config".to_string()),
            ("RESOURCE_DIR".to_string(), "/home/u/.dive/host_cache".to_string()),
            ("DIVE_USER_AGENT".to_string(), user_agent("0.9.3")),
        ]
    );
}

#[test]
fn dev_spawn_plan_uses_the_runner() {
    let host = running_supervisor();
    let launcher = HostLauncher::DevRunner { dev_dir: "/src/mcp-host".to_string() };
    let plan = host.spawn_plan(&launcher, "/usr/bin", "/cfg", "/cache", "0.0.1");
    assert_eq!(plan.program, "uv");
    assert_eq!(plan.cwd, "/src/mcp-host");
    assert_eq!(&plan.args[..2], &["run".to_string(), "dive_httpd".to_string()]);
    assert_eq!(&plan.args[2..4], &["--port".to_string(), "0".to_string()]);
}

#[test]
fn site_script_doubles_backslashes() {
    let script = site_script("C:\\dive\\host", "C:\\dive\\deps");
    assert_eq!(
        script,
        "import site; site.addsitedir('C:\\\\dive\\\\host'); site.addsitedir('C:\\\\dive\\\\deps'); from dive_mcp_host.httpd._main import main; main()"
    );
}

#[test]
fn user_agent_carries_the_version() {
    assert_eq!(
        user_agent("1.2.3"),
        "Mozilla/5.0 (Windows NT 10.0; Win64; x64) AppleWebKit/537.36 (KHTML, like Gecko) Chrome/131.0.0.0 Safari/537.36 Dive/1.2.3 (+https://github.com/OpenAgentPlatform/Dive)"
    );
}

#[test]
fn relayed_lines_carry_the_worker_tag() {
    assert_eq!(relay_line("listening on 127.0.0.1:61990"), "[dived] listening on 127.0.0.1:61990");
}
