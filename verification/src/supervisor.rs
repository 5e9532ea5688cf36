//! The host process supervisor's decisions: the phase machine of the
//! worker's lifecycle, the exact command line and environment the
//! worker is spawned with, the relay tag for its output lines, and the
//! shutdown plan with its escalating termination steps.
//!
//! The supervisor here never spawns or kills anything itself: the
//! caller performs the spawn plan and the shutdown steps and reports
//! the outcomes back as transitions.

use vstd::prelude::*;
use vstd::string::StringExecFns;

use crate::paths::{simplified_path, simplify_path};
use crate::text::backslashes_doubled;
use crate::text::double_backslashes;

verus! {

/// Lifecycle phase of the supervised worker process.
#[derive(Clone, Copy, Debug, PartialEq, Eq, Structural)]
pub enum Phase {
    Uninitialized,
    Prepared,
    Running,
    Terminating,
    Terminated,
}

/// Order of the phases along the lifecycle.
pub open spec fn phase_rank(p: Phase) -> int {
    match p {
        Phase::Uninitialized => 0,
        Phase::Prepared => 1,
        Phase::Running => 2,
        Phase::Terminating => 3,
        Phase::Terminated => 4,
    }
}

/// The supervisor's state: the phase, the spawned worker's process id
/// while it runs, the rendezvous/status file path, and the worker's
/// resolved directories.
pub struct HostProcess {
    phase: Phase,
    child: Option<u32>,
    file_path: String,
    host_dir: String,
    def_mcp_bin_path: String,
}

/// How the worker is launched: a development runner found on the
/// search path, or the bundled interpreter with the worker's
/// directories put on its module path.
pub enum HostLauncher {
    /// `uv run dive_httpd`, working in the given source directory.
    DevRunner { dev_dir: String },
    /// The bundled interpreter, isolated, running the worker's entry
    /// point with the bundled code and dependency directories added.
    BundledPython { python_bin: String, deps_dir: String },
}

/// One step of the shutdown plan, to be performed in order.
#[derive(Clone, Copy, Debug, PartialEq, Eq, Structural)]
pub enum ShutdownStep {
    /// Remove the rendezvous file, best effort.
    RemoveRendezvous,
    /// Send the graceful termination signal.
    SignalTerm(u32),
    /// Wait the short grace period.
    SleepGrace,
    /// Send the forceful kill signal.
    SignalKill(u32),
    /// Kill through the process handle, unconditionally.
    ForceKill(u32),
    /// Wait for the process to leave the process table.
    AwaitExit(u32),
}

/// The shutdown steps owed in a given state: nothing when already
/// terminated; otherwise remove the rendezvous file and, when a child
/// is present, terminate it — gracefully first where the platform has
/// signals — and always end with the unconditional kill and the wait
/// for its exit.
pub open spec fn shutdown_steps(phase: Phase, child: Option<u32>, has_signals: bool) -> Seq<
    ShutdownStep,
> {
    if phase is Terminated {
        Seq::empty()
    } else {
        seq![ShutdownStep::RemoveRendezvous] + match child {
            Some(pid) => (if has_signals {
                seq![
                    ShutdownStep::SignalTerm(pid),
                    ShutdownStep::SleepGrace,
                    ShutdownStep::SignalKill(pid),
                    ShutdownStep::SleepGrace,
                ]
            } else {
                Seq::empty()
            }) + seq![ShutdownStep::ForceKill(pid), ShutdownStep::AwaitExit(pid)],
            None => Seq::empty(),
        }
    }
}

impl HostProcess {
    /// Invariant: a process handle is held exactly while the worker
    /// runs or is being torn down.
    pub closed spec fn wf(&self) -> bool {
        self.child is Some ==> (self.phase is Running || self.phase is Terminating)
    }

    /// The current phase.
    pub closed spec fn spec_phase(&self) -> Phase {
        self.phase
    }

    /// Path of the rendezvous/status file shared with the worker.
    pub closed spec fn spec_file_path(&self) -> Seq<char> {
        self.file_path@
    }

    /// Directory of the worker's bundled code.
    pub closed spec fn spec_host_dir(&self) -> Seq<char> {
        self.host_dir@
    }

    /// Path of the built-in tool-server binary.
    pub closed spec fn spec_def_mcp_bin_path(&self) -> Seq<char> {
        self.def_mcp_bin_path@
    }

    /// Path of the built-in tool-server binary.
    pub fn def_mcp_bin_path(&self) -> (r: &str)
        ensures
            r@ == self.spec_def_mcp_bin_path(),
    {
        self.def_mcp_bin_path.as_str()
    }

    /// Path of the rendezvous/status file shared with the worker.
    pub fn file_path(&self) -> (r: &str)
        ensures
            r@ == self.spec_file_path(),
    {
        self.file_path.as_str()
    }

    /// The spawned worker's process id, while one runs.
    pub closed spec fn spec_child(&self) -> Option<u32> {
        self.child
    }

    /// The current phase.
    pub fn phase(&self) -> (r: Phase)
        ensures
            r == self.spec_phase(),
    {
        self.phase
    }

    /// A fresh supervisor: uninitialized, no child, the built-in
    /// tool-server binary expected beside the other prebuilt pieces.
    pub fn new(host_dir: String, prebuilt_dir: &str, def_mcp_bin_name: &str, file_path: String) -> (
        r: HostProcess)
        ensures
            r.wf(),
            r.spec_phase() is Uninitialized,
            r.spec_child() is None,
            r.spec_host_dir() == host_dir@,
            r.spec_file_path() == file_path@,
            r.spec_def_mcp_bin_path() == prebuilt_dir@ + "/"@ + def_mcp_bin_name@,
    {
        let mut bin = prebuilt_dir.to_owned();
        bin.append("/");
        bin.append(def_mcp_bin_name);
        proof {
            assert(bin@ =~= prebuilt_dir@ + "/"@ + def_mcp_bin_name@);
        }
        HostProcess {
            phase: Phase::Uninitialized,
            child: None,
            file_path,
            host_dir,
            def_mcp_bin_path: bin,
        }
    }

    /// Record that the configuration bootstrap ran: the supervisor is
    /// prepared. The bootstrap's own failure is reported elsewhere and
    /// is not fatal to the phase.
    pub fn on_prepared(&mut self)
        requires
            old(self).wf(),
            old(self).spec_phase() is Uninitialized,
        ensures
            final(self).wf(),
            final(self).spec_phase() is Prepared,
            final(self).spec_child() is None,
            phase_rank(final(self).spec_phase()) >= phase_rank(old(self).spec_phase()),
            final(self).spec_file_path() == old(self).spec_file_path(),
            final(self).spec_host_dir() == old(self).spec_host_dir(),
            final(self).spec_def_mcp_bin_path() == old(self).spec_def_mcp_bin_path(),
    {
        self.phase = Phase::Prepared;
    }

    /// Record the outcome of the spawn the caller performed: on
    /// success the worker runs under the given process id; on failure
    /// the supervisor stays prepared, out of `Running`.
    pub fn on_spawned(&mut self, ok: bool, child_id: u32)
        requires
            old(self).wf(),
            old(self).spec_phase() is Prepared,
        ensures
            final(self).wf(),
            ok ==> final(self).spec_phase() is Running && final(self).spec_child() == Some(
                child_id,
            ),
            !ok ==> *final(self) == *old(self),
            phase_rank(final(self).spec_phase()) >= phase_rank(old(self).spec_phase()),
    {
        if ok {
            self.phase = Phase::Running;
            self.child = Some(child_id);
        }
    }

    /// Plan the teardown and move to `Terminated`: the returned steps,
    /// performed in order, remove the rendezvous file and leave no
    /// child process behind. On an already-terminated supervisor this
    /// is a no-op.
    pub fn destroy(&mut self, has_signals: bool) -> (steps: Vec<ShutdownStep>)
        requires
            old(self).wf(),
        ensures
            final(self).wf(),
            final(self).spec_phase() is Terminated,
            final(self).spec_child() is None,
            phase_rank(final(self).spec_phase()) >= phase_rank(old(self).spec_phase()),
            steps@ == shutdown_steps(old(self).spec_phase(), old(self).spec_child(), has_signals),
    {
        let mut steps: Vec<ShutdownStep> = Vec::new();
        if matches!(self.phase, Phase::Terminated) {
            proof {
                assert(steps@ =~= shutdown_steps(
                    old(self).spec_phase(),
                    old(self).spec_child(),
                    has_signals,
                ));
            }
            return steps;
        }
        self.phase = Phase::Terminating;
        steps.push(ShutdownStep::RemoveRendezvous);
        match self.child.take() {
            Some(pid) => {
                if has_signals {
                    steps.push(ShutdownStep::SignalTerm(pid));
                    steps.push(ShutdownStep::SleepGrace);
                    steps.push(ShutdownStep::SignalKill(pid));
                    steps.push(ShutdownStep::SleepGrace);
                }
                steps.push(ShutdownStep::ForceKill(pid));
                steps.push(ShutdownStep::AwaitExit(pid));
            },
            None => {},
        }
        self.phase = Phase::Terminated;
        proof {
            assert(steps@ =~= shutdown_steps(
                old(self).spec_phase(),
                old(self).spec_child(),
                has_signals,
            ));
        }
        steps
    }
}

/// Law (shutdown always kills): in any state short of `Terminated` the
/// shutdown steps begin by removing the rendezvous file and, whenever
/// a child is present, end with the unconditional kill of that child
/// followed by the wait for its exit — whether or not the child heeded
/// the graceful signal, and on platforms without signals too.
pub proof fn lemma_shutdown_always_kills(phase: Phase, child: Option<u32>, has_signals: bool)
    requires
        !(phase is Terminated),
    ensures
        shutdown_steps(phase, child, has_signals)[0] == ShutdownStep::RemoveRendezvous,
        child matches Some(pid) ==> {
            let steps = shutdown_steps(phase, child, has_signals);
            &&& steps.len() >= 3
            &&& steps[steps.len() - 2] == ShutdownStep::ForceKill(pid)
            &&& steps.last() == ShutdownStep::AwaitExit(pid)
        },
{
}

/// The inline program handed to the bundled interpreter: put the
/// worker's code and dependency directories on the module path, then
/// run the worker's entry point. Each directory is normalized first;
/// backslashes in the embedded paths are doubled so they survive the
/// string literals.
pub open spec fn site_script_spec(host_dir: Seq<char>, deps_dir: Seq<char>) -> Seq<char> {
    "import site; site.addsitedir('"@ + backslashes_doubled(simplified_path(host_dir))
        + "'); site.addsitedir('"@ + backslashes_doubled(simplified_path(deps_dir))
        + "'); from dive_mcp_host.httpd._main import main; main()"@
}

/// The inline program handed to the bundled interpreter.
pub fn site_script(host_dir: &str, deps_dir: &str) -> (r: String)
    ensures
        r@ == site_script_spec(host_dir@, deps_dir@),
{
    let mut r = "import site; site.addsitedir('".to_owned();
    r.append(double_backslashes(simplify_path(host_dir).as_str()).as_str());
    r.append("'); site.addsitedir('");
    r.append(double_backslashes(simplify_path(deps_dir).as_str()).as_str());
    r.append("'); from dive_mcp_host.httpd._main import main; main()");
    proof {
        assert(r@ =~= site_script_spec(host_dir@, deps_dir@));
    }
    r
}

/// The descriptive user-agent string the worker presents, carrying the
/// application's version.
pub open spec fn user_agent_spec(version: Seq<char>) -> Seq<char> {
    "Mozilla/5.0 (Windows NT 10.0; Win64; x64) AppleWebKit/537.36 (KHTML, like Gecko) Chrome/131.0.0.0 Safari/537.36 Dive/"@
        + version + " (+https://github.com/OpenAgentPlatform/Dive)"@
}

/// The descriptive user-agent string the worker presents.
pub fn user_agent(version: &str) -> (r: String)
    ensures
        r@ == user_agent_spec(version@),
{
    let mut r =
        "Mozilla/5.0 (Windows NT 10.0; Win64; x64) AppleWebKit/537.36 (KHTML, like Gecko) Chrome/131.0.0.0 Safari/537.36 Dive/".to_owned();
    r.append(version);
    r.append(" (+https://github.com/OpenAgentPlatform/Dive)");
    proof {
        assert(r@ =~= user_agent_spec(version@));
    }
    r
}

/// The tag put in front of one relayed worker output line.
pub open spec fn relayed_line_spec(line: Seq<char>) -> Seq<char> {
    "[dived] "@ + line
}

/// One worker output line as it goes to the application log.
pub fn relay_line(line: &str) -> (r: String)
    ensures
        r@ == relayed_line_spec(line@),
{
    let mut r = "[dived] ".to_owned();
    r.append(line);
    proof {
        assert(r@ =~= relayed_line_spec(line@));
    }
    r
}

/// Everything the caller needs to spawn the worker: the program, its
/// arguments in order, the environment overrides laid over the
/// inherited environment, the working directory, and whether the
/// output streams are piped into the relay.
pub struct SpawnPlan {
    pub program: String,
    pub args: Vec<String>,
    pub env_overrides: Vec<(String, String)>,
    pub cwd: String,
    pub pipe_output: bool,
}

/// The program of a launcher.
pub open spec fn launcher_program(l: HostLauncher) -> Seq<char> {
    match l {
        HostLauncher::DevRunner { .. } => "uv"@,
        HostLauncher::BundledPython { python_bin, .. } => python_bin@,
    }
}

/// The launcher-specific opening arguments.
pub open spec fn launcher_args(l: HostLauncher, host_dir: Seq<char>) -> Seq<Seq<char>> {
    match l {
        HostLauncher::DevRunner { .. } => seq!["run"@, "dive_httpd"@],
        HostLauncher::BundledPython { deps_dir, .. } => seq![
            "-I"@,
            "-c"@,
            site_script_spec(host_dir, deps_dir@),
        ],
    }
}

/// The working directory of a launcher, normalized.
pub open spec fn launcher_cwd(l: HostLauncher, host_dir: Seq<char>) -> Seq<char> {
    match l {
        HostLauncher::DevRunner { dev_dir } => simplified_path(dev_dir@),
        HostLauncher::BundledPython { .. } => simplified_path(host_dir),
    }
}

/// The fixed arguments every launch carries after the launcher's own:
/// a port chosen by the system, the status-report file, and the log
/// verbosity.
pub open spec fn fixed_args_spec(file_path: Seq<char>) -> Seq<Seq<char>> {
    seq!["--port"@, "0"@, "--report_status_file"@, file_path, "--log_level"@, "INFO"@]
}

/// The environment overrides of every launch: the executable search
/// path, the configuration and resource directories, and the
/// user-agent string.
pub open spec fn env_overrides_spec(
    system_path: Seq<char>,
    config_dir: Seq<char>,
    cache_dir: Seq<char>,
    version: Seq<char>,
) -> Seq<(Seq<char>, Seq<char>)> {
    seq![
        ("PATH"@, system_path),
        ("DIVE_CONFIG_DIR"@, config_dir),
        ("RESOURCE_DIR"@, cache_dir),
        ("DIVE_USER_AGENT"@, user_agent_spec(version)),
    ]
}

impl HostProcess {
    /// Build the spawn plan of the worker: the launcher's command and
    /// working directory, the fixed arguments, the environment
    /// overrides, and piped output.
    pub fn spawn_plan(
        &self,
        launcher: &HostLauncher,
        system_path: &str,
        config_dir: &str,
        cache_dir: &str,
        version: &str,
    ) -> (r: SpawnPlan)
        ensures
            r.program@ == launcher_program(*launcher),
            r.args.deep_view() == launcher_args(*launcher, self.spec_host_dir())
                + fixed_args_spec(self.spec_file_path()),
            r.env_overrides.deep_view() == env_overrides_spec(
                system_path@,
                config_dir@,
                cache_dir@,
                version@,
            ),
            r.cwd@ == launcher_cwd(*launcher, self.spec_host_dir()),
            r.pipe_output,
    {
        let mut args: Vec<String> = Vec::new();
        let program: String;
        let cwd: String;
        match launcher {
            HostLauncher::DevRunner { dev_dir } => {
                program = "uv".to_owned();
                cwd = simplify_path(dev_dir.as_str());
                args.push("run".to_owned());
                args.push("dive_httpd".to_owned());
            },
            HostLauncher::BundledPython { python_bin, deps_dir } => {
                program = python_bin.clone();
                cwd = simplify_path(self.host_dir.as_str());
                args.push("-I".to_owned());
                args.push("-c".to_owned());
                args.push(site_script(self.host_dir.as_str(), deps_dir.as_str()));
            },
        }
        args.push("--port".to_owned());
        args.push("0".to_owned());
        args.push("--report_status_file".to_owned());
        args.push(self.file_path.clone());
        args.push("--log_level".to_owned());
        args.push("INFO".to_owned());
        let mut env_overrides: Vec<(String, String)> = Vec::new();
        env_overrides.push(("PATH".to_owned(), system_path.to_owned()));
        env_overrides.push(("DIVE_CONFIG_DIR".to_owned(), config_dir.to_owned()));
        env_overrides.push(("RESOURCE_DIR".to_owned(), cache_dir.to_owned()));
        env_overrides.push(("DIVE_USER_AGENT".to_owned(), user_agent(version)));
        let r = SpawnPlan { program, args, env_overrides, cwd, pipe_output: true };
        proof {
            assert(r.args.deep_view() =~= launcher_args(*launcher, self.spec_host_dir())
                + fixed_args_spec(self.spec_file_path()));
            assert(r.env_overrides.deep_view() =~~= env_overrides_spec(
                system_path@,
                config_dir@,
                cache_dir@,
                version@,
            ));
        }
        r
    }
}

} // verus!
