//! Backend process supervision.
//!
//! `PythonManager` owns the lifecycle decisions for the long-running
//! backend process: whether to spawn, with what command line and
//! environment, when a stop must kill which process, and when the blocking
//! health wait succeeds or times out.  The unverified driver holds this
//! state under a single lock, performs the actual spawn / kill / HTTP
//! probe, and reports the results back.

use vstd::prelude::*;

use crate::config::{spec_join, AppPaths, UvPaths};
use crate::text::{spec_dec, str_concat, u64_to_dec};

verus! {

/// Backend server configuration.
#[derive(Debug, Clone)]
pub struct BackendConfig {
    pub host: String,
    pub port: u16,
}

impl Default for BackendConfig {
    fn default() -> (r: Self)
        ensures
            r.host@ == "0.0.0.0"@,
            r.port == 12345,
    {
        BackendConfig { host: "0.0.0.0".to_owned(), port: 12345 }
    }
}

/// Everything the driver needs to spawn the backend process: program,
/// working directory, fixed arguments, environment values, and where to
/// append standard error.  Standard input is closed and standard output
/// discarded by the driver.
pub struct SpawnPlan {
    pub program: String,
    pub cwd: String,
    pub args: Vec<String>,
    pub env_host: String,
    pub env_port: u16,
    pub env_deploy_mode: String,
    pub stderr_log: String,
}

/// How to take down a process tree on this platform.
pub enum KillPlan {
    /// Use the system task-kill utility with tree and force flags.
    TaskKill(u32),
    /// Send a termination signal, wait a short grace period, then kill.
    TermThenKill(u32),
}

/// Delay between stop and start during a restart, in milliseconds.
pub const RESTART_SETTLE_MS: u64 = 500;

/// Interval between health-check polls, in milliseconds.
pub const HEALTH_POLL_INTERVAL_MS: u64 = 500;

/// Grace period between the termination signal and the kill signal, in
/// milliseconds.
pub const KILL_GRACE_MS: u64 = 300;

/// Backend process manager: tracks at most one live process handle and
/// decides every lifecycle transition.
pub struct PythonManager {
    /// The tracked process id, when a process is running.
    pub child: Option<u32>,
    pub cfg: BackendConfig,
    pub paths: AppPaths,
    pub uv: UvPaths,
}

impl PythonManager {
    /// Create a new manager with no process tracked.
    pub fn new(paths: AppPaths, uv: UvPaths, cfg: BackendConfig) -> (r: Self)
        ensures
            r.child is None,
            r.cfg == cfg,
            r.paths == paths,
            r.uv == uv,
    {
        PythonManager { child: None, cfg, paths, uv }
    }

    /// Decide what starting the backend means right now: `None` when a
    /// process is already tracked — starting twice spawns nothing and
    /// leaves the tracked handle untouched — otherwise the full spawn
    /// plan.  On spawn failure the driver simply never confirms, so the
    /// state is left unchanged.
    pub fn start_plan(&self) -> (r: Option<SpawnPlan>)
        ensures
            (r is None) == (self.child is Some),
            r matches Some(p) ==> {
                &&& p.program@ == self.uv.uv@
                &&& p.cwd@ == self.uv.pyproject_dir@
                &&& p.args@.len() == 2
                &&& p.args@[0]@ == "run"@
                &&& p.args@[1]@ == "backend/app.py"@
                &&& p.env_host@ == self.cfg.host@
                &&& p.env_port == self.cfg.port
                &&& p.env_deploy_mode@ == "local"@
                &&& p.stderr_log@ == spec_join(self.paths.log_dir@, "backend-stderr.log"@)
            },
    {
        if self.child.is_some() {
            return None;
        }
        let mut args: Vec<String> = Vec::new();
        args.push("run".to_owned());
        args.push("backend/app.py".to_owned());
        let stderr_log = crate::config::path_join(self.paths.log_dir.as_str(), "backend-stderr.log");
        Some(SpawnPlan {
            program: self.uv.uv.clone(),
            cwd: self.uv.pyproject_dir.clone(),
            args,
            env_host: self.cfg.host.clone(),
            env_port: self.cfg.port,
            env_deploy_mode: "local".to_owned(),
            stderr_log,
        })
    }

    /// Record the spawned process.  Only legal when no process is tracked,
    /// so a second live handle can never appear.
    pub fn confirm_started(&mut self, pid: u32)
        requires
            old(self).child is None,
        ensures
            final(self).child == Some(pid),
            final(self).cfg == old(self).cfg,
            final(self).paths == old(self).paths,
            final(self).uv == old(self).uv,
    {
        self.child = Some(pid);
    }

    /// Decide what stopping the backend means right now: removes and
    /// returns the tracked handle (to be tree-killed by the driver), or
    /// `None` when nothing is running and stop is a no-op success.
    pub fn take_child(&mut self) -> (r: Option<u32>)
        ensures
            r == old(self).child,
            final(self).child is None,
            final(self).cfg == old(self).cfg,
            final(self).paths == old(self).paths,
            final(self).uv == old(self).uv,
    {
        let r = self.child;
        self.child = None;
        r
    }

    /// The backend base URL for proxy configuration; always the loopback
    /// form, whatever host the backend binds.
    pub fn backend_url(&self) -> (r: String)
        ensures
            r@ == "http://127.0.0.1:"@ + spec_dec(self.cfg.port as nat) + seq!['/'],
    {
        let port = u64_to_dec(self.cfg.port as u64);
        let base = str_concat("http://127.0.0.1:", port.as_str());
        let r = str_concat(base.as_str(), "/");
        proof {
            reveal_strlit("/");
            assert("/"@ =~= seq!['/']);
            assert(r@ =~= "http://127.0.0.1:"@ + spec_dec(self.cfg.port as nat) + seq!['/']);
        }
        r
    }

    /// The loopback URL polled by the health check.
    pub fn health_url(&self) -> (r: String)
        ensures
            r@ == "http://127.0.0.1:"@ + spec_dec(self.cfg.port as nat) + "/root/"@,
    {
        let port = u64_to_dec(self.cfg.port as u64);
        let base = str_concat("http://127.0.0.1:", port.as_str());
        let r = str_concat(base.as_str(), "/root/");
        proof {
            assert(r@ =~= "http://127.0.0.1:"@ + spec_dec(self.cfg.port as nat) + "/root/"@);
        }
        r
    }

    /// The log directory path.
    pub fn log_dir(&self) -> (r: String)
        ensures
            r@ == self.paths.log_dir@,
    {
        self.paths.log_dir.clone()
    }
}

/// How to take down the process tree rooted at `pid` on this platform:
/// the task-kill utility on Windows, signal escalation elsewhere.
pub fn kill_plan(windows: bool, pid: u32) -> (r: KillPlan)
    ensures
        windows ==> r == KillPlan::TaskKill(pid),
        !windows ==> r == KillPlan::TermThenKill(pid),
{
    if windows {
        KillPlan::TaskKill(pid)
    } else {
        KillPlan::TermThenKill(pid)
    }
}

/// Returns true when an HTTP status code counts as a healthy backend
/// response: any success status, or 401 (the backend is up but wants
/// credentials).
pub fn is_healthy_status(status: u16) -> (r: bool)
    ensures
        r == (200 <= status < 300 || status == 401),
{
    (200 <= status && status < 300) || status == 401
}

/// One step of the health-check loop: the deadline is checked before the
/// probe result is consulted, so a reply arriving after the deadline no
/// longer counts.
pub enum HealthPoll {
    Healthy,
    TimedOut,
    Continue,
}

/// Decide one iteration of the health wait.
pub fn health_step(elapsed_ms: u64, timeout_ms: u64, healthy: bool) -> (r: HealthPoll)
    ensures
        (r is TimedOut) == (elapsed_ms > timeout_ms),
        (r is Healthy) == (elapsed_ms <= timeout_ms && healthy),
        (r is Continue) == (elapsed_ms <= timeout_ms && !healthy),
{
    if elapsed_ms > timeout_ms {
        HealthPoll::TimedOut
    } else if healthy {
        HealthPoll::Healthy
    } else {
        HealthPoll::Continue
    }
}

/// The whole health wait over a timeline of probe outcomes.
///
/// `probes[i]` is whether the endpoint answers healthily at elapsed time
/// `i * interval_ms`.  The wait succeeds exactly when some probe within
/// the deadline is healthy, success is reported no later than the
/// deadline, and a wait that never sees a healthy probe stops within one
/// poll interval after the deadline.
pub fn health_wait_outcome(probes: &Vec<bool>, timeout_ms: u64, interval_ms: u64)
    -> (r: (bool, u64))
    requires
        interval_ms >= 1,
        timeout_ms + interval_ms <= u64::MAX,
        probes@.len() * interval_ms > timeout_ms,
    ensures
        r.0 == exists|j: int|
            0 <= j < probes@.len() && j * interval_ms <= timeout_ms && #[trigger] probes@[j],
        r.0 ==> r.1 <= timeout_ms,
        !r.0 ==> timeout_ms < r.1 <= timeout_ms + interval_ms,
{
    let mut i: usize = 0;
    let mut elapsed: u64 = 0;
    loop
        invariant
            interval_ms >= 1,
            timeout_ms + interval_ms <= u64::MAX,
            probes@.len() * interval_ms > timeout_ms,
            elapsed == i * interval_ms,
            i >= 1 ==> (i - 1) * interval_ms <= timeout_ms,
            forall|j: int| 0 <= j < i ==> !(#[trigger] probes@[j]),
        decreases timeout_ms + interval_ms - elapsed,
    {
        if elapsed > timeout_ms {
            proof {
                assert forall|j: int|
                    0 <= j < probes@.len() && j * interval_ms <= timeout_ms implies !(
                #[trigger] probes@[j]) by {
                    assert(j < i) by (nonlinear_arith)
                        requires
                            j * interval_ms <= timeout_ms,
                            i * interval_ms > timeout_ms,
                            interval_ms >= 1,
                    ;
                }
                if i >= 1 {
                    assert(i * interval_ms == (i - 1) * interval_ms + interval_ms)
                        by (nonlinear_arith);
                    assert(elapsed <= timeout_ms + interval_ms);
                }
            }
            return (false, elapsed);
        }
        proof {
            assert(i < probes@.len()) by (nonlinear_arith)
                requires
                    i * interval_ms <= timeout_ms,
                    probes@.len() * interval_ms > timeout_ms,
                    interval_ms >= 1,
            ;
        }
        let n = probes.len();
        if probes[i] {
            return (true, elapsed);
        }
        assert(i < n);
        proof {
            assert((i + 1) * interval_ms == i * interval_ms + interval_ms) by (nonlinear_arith);
        }
        i += 1;
        elapsed = elapsed + interval_ms;
    }
}

} // verus!
