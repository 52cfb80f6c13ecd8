use rv_core::config::{resolve_paths, resolve_uv_paths};
use rv_core::downloader::TargetOs;
use rv_core::supervisor::{
    health_step, health_wait_outcome, is_healthy_status, kill_plan, BackendConfig, HealthPoll,
    KillPlan, PythonManager,
};

#[test]
fn backend_config_default_values() {
    let cfg = BackendConfig::default();
    assert_eq!(cfg.host, "0.0.0.0");
    assert_eq!(cfg.port, 12345);
}

fn manager() -> PythonManager {
    let paths = resolve_paths(TargetOs::Linux, "/data", "/cfg", "/home/u");
    let uv = resolve_uv_paths(TargetOs::Linux, "/data", "/exe");
    PythonManager::new(paths, uv, BackendConfig::default())
}

#[test]
fn start_on_running_supervisor_spawns_nothing() {
    let mut pm = manager();
    let plan = pm.start_plan();
    assert!(plan.is_some());
    pm.confirm_started(4242);
    assert_eq!(pm.child, Some(4242));
    // A second start is a no-op: no plan, and the tracked handle is unchanged.
    assert!(pm.start_plan().is_none());
    assert_eq!(pm.child, Some(4242));
}

#[test]
fn spawn_plan_carries_configuration() {
    let pm = manager();
    let plan = pm.start_plan().unwrap();
    assert_eq!(plan.program, "/data/redViewer/bin/uv");
    assert_eq!(plan.cwd, "/data/redViewer/backend");
    assert_eq!(plan.args, vec!["run".to_string(), "backend/app.py".to_string()]);
    assert_eq!(plan.env_host, "0.0.0.0");
    assert_eq!(plan.env_port, 12345);
    assert_eq!(plan.env_deploy_mode, "local");
    assert_eq!(plan.stderr_log, "/data/redViewer/logs/backend-stderr.log");
}

#[test]
fn stop_removes_the_tracked_handle() {
    let mut pm = manager();
    assert_eq!(pm.take_child(), None); // stop with nothing running is a no-op
    pm.confirm_started(7);
    assert_eq!(pm.take_child(), Some(7));
    assert_eq!(pm.child, None);
    assert_eq!(pm.take_child(), None);
}

#[test]
fn backend_urls_use_loopback() {
    let pm = manager();
    assert_eq!(pm.backend_url(), "http://127.0.0.1:12345/");
    assert_eq!(pm.health_url(), "http://127.0.0.1:12345/root/");
    assert_eq!(pm.log_dir(), "/data/redViewer/logs");
}

#[test]
fn healthy_statuses_are_success_or_unauthorized() {
    assert!(is_healthy_status(200));
    assert!(is_healthy_status(204));
    assert!(is_healthy_status(299));
    assert!(is_healthy_status(401));
    assert!(!is_healthy_status(199));
    assert!(!is_healthy_status(300));
    assert!(!is_healthy_status(404));
    assert!(!is_healthy_status(500));
}

#[test]
fn health_step_checks_deadline_before_probe() {
    assert!(matches!(health_step(0, 1000, true), HealthPoll::Healthy));
    assert!(matches!(health_step(0, 1000, false), HealthPoll::Continue));
    assert!(matches!(health_step(1000, 1000, false), HealthPoll::Continue));
    assert!(matches!(health_step(1001, 1000, true), HealthPoll::TimedOut));
}

#[test]
fn health_wait_succeeds_when_endpoint_comes_up_in_time() {
    // Reachable at the third poll (elapsed 1000ms), well inside the 2500ms deadline.
    let probes = vec![false, false, true, true, true, true];
    let (ok, elapsed) = health_wait_outcome(&probes, 2500, 500);
    assert!(ok);
    assert_eq!(elapsed, 1000);
    assert!(elapsed <= 2500);
}

#[test]
fn health_wait_times_out_within_one_interval() {
    let probes = vec![false; 8];
    let (ok, elapsed) = health_wait_outcome(&probes, 2500, 500);
    assert!(!ok);
    assert!(elapsed > 2500);
    assert!(elapsed <= 3000);
}

#[test]
fn kill_plans_follow_the_platform() {
    assert!(matches!(kill_plan(true, 10), KillPlan::TaskKill(10)));
    assert!(matches!(kill_plan(false, 10), KillPlan::TermThenKill(10)));
}
