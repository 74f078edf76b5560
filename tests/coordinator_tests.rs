use backend_supervisor::coordinator::{Backend, Event, Slot, Step};
use backend_supervisor::error::BackendError;
use backend_supervisor::events::EVENT_READY;
use backend_supervisor::lock::{CreateOutcome, InstanceLock, STALE_LOCK_SECS};
use backend_supervisor::mode::ModeState;
use backend_supervisor::supervisor::ExitAction;
use backend_supervisor::PythonConfig;

fn backend(created: bool) -> Backend {
    let mut lock = InstanceLock::new(STALE_LOCK_SECS);
    let outcome = if created {
        CreateOutcome::Created
    } else {
        CreateOutcome::Held { age_secs: Some(12) }
    };
    lock.on_create_attempt(outcome);
    Backend::new(PythonConfig::default(), lock)
}

fn launch_checked(b: &mut Backend, pid: u32) -> Step {
    assert_eq!(b.on_event(Event::ExecutableChecked { found: true }), Step::CheckDependency);
    let spawn = b.on_event(Event::DependencyChecked { found: true });
    let port = match spawn {
        Step::Spawn { port } => port,
        other => panic!("expected a spawn, got {:?}", other),
    };
    assert_eq!(b.on_event(Event::Spawned { pid }), Step::Ready { port });
    spawn
}

fn running_primary(pid: u32) -> Backend {
    let mut b = backend(true);
    assert_eq!(b.ensure_backend(true), Step::ProbePort { port: 8009 });
    assert_eq!(b.on_event(Event::PortProbed { free: true }), Step::CheckExecutable);
    launch_checked(&mut b, pid);
    b
}

#[test]
fn startup_primary_and_secondary_instances() {
    let mut first = backend(true);
    assert!(first.lock.is_primary());
    assert_eq!(first.ensure_backend(true), Step::ProbePort { port: 8009 });
    assert_eq!(first.on_event(Event::PortProbed { free: true }), Step::CheckExecutable);
    assert_eq!(launch_checked(&mut first, 100), Step::Spawn { port: 8009 });
    assert_eq!(first.current_port(), Some(8009));
    assert!(first.owns_process());
    assert_eq!(EVENT_READY, "backend-ready");

    let mut second = backend(false);
    assert!(!second.lock.is_primary());
    assert_eq!(second.ensure_backend(true), Step::ScanPorts { start: 8010, count: 100 });
    assert_eq!(second.on_event(Event::PortsScanned { free: vec![true; 100] }), Step::CheckExecutable);
    assert_eq!(launch_checked(&mut second, 200), Step::Spawn { port: 8010 });
    assert_eq!(second.current_port(), Some(8010));
    assert_eq!(first.current_port(), Some(8009));
}

#[test]
fn repeated_requests_keep_the_running_backend() {
    let mut b = running_primary(100);
    let before = b.clone();
    for fresh in [true, false, true, true] {
        assert_eq!(b.ensure_backend(fresh), Step::Ready { port: 8009 });
        assert_eq!(b.slot, before.slot);
    }
    assert_eq!(b.slot, Slot::Owned { pid: 100, port: 8009 });
}

#[test]
fn healthy_service_on_canonical_port_is_reused() {
    let mut b = backend(true);
    assert_eq!(b.ensure_backend(true), Step::ProbePort { port: 8009 });
    assert_eq!(b.on_event(Event::PortProbed { free: false }), Step::ProbeHealth { port: 8009 });
    assert_eq!(b.on_event(Event::HealthProbed { ours: true }), Step::Ready { port: 8009 });
    assert!(!b.owns_process());
    assert_eq!(b.slot, Slot::Reused { port: 8009 });
    assert_eq!(b.ensure_backend(false), Step::Ready { port: 8009 });
}

#[test]
fn foreign_service_on_canonical_port_is_avoided() {
    let mut b = backend(true);
    b.ensure_backend(true);
    b.on_event(Event::PortProbed { free: false });
    assert_eq!(b.on_event(Event::HealthProbed { ours: false }), Step::ScanPorts { start: 8010, count: 100 });
    let mut free = vec![false; 100];
    free[3] = true;
    free[7] = true;
    assert_eq!(b.on_event(Event::PortsScanned { free }), Step::CheckExecutable);
    assert_eq!(launch_checked(&mut b, 7), Step::Spawn { port: 8013 });
    assert!(b.owns_process());
}

#[test]
fn teardown_of_reused_backend_kills_nothing_and_releases_lock() {
    let mut b = backend(true);
    b.ensure_backend(true);
    b.on_event(Event::PortProbed { free: false });
    b.on_event(Event::HealthProbed { ours: true });
    let plan = b.teardown();
    assert_eq!(plan.terminate, None);
    assert!(plan.remove_lock_marker);
    assert_eq!(plan.reclaim_ports, vec![8008, 8010, 8011, 8012]);
    let again = b.teardown();
    assert_eq!(again.terminate, None);
    assert!(!again.remove_lock_marker);
    assert_eq!(again.reclaim_ports, vec![8008, 8010, 8011, 8012]);
}

#[test]
fn teardown_of_owned_backend_terminates_it_once() {
    let mut b = running_primary(4242);
    let plan = b.teardown();
    assert_eq!(plan.terminate, Some(4242));
    assert!(plan.remove_lock_marker);
    assert_eq!(plan.reclaim_ports, vec![8008, 8009, 8010, 8011, 8012]);
    assert_eq!(b.current_port(), None);
    assert_eq!(b.teardown().terminate, None);
    assert_eq!(b.on_process_exit(4242), ExitAction::Ignore);
}

#[test]
fn teardown_of_secondary_keeps_marker() {
    let mut b = backend(false);
    let plan = b.teardown();
    assert_eq!(plan.terminate, None);
    assert!(!plan.remove_lock_marker);
}

#[test]
fn dev_then_release_switch_restarts_on_canonical_port() {
    let mut b = running_primary(100);
    let mut mode = ModeState {
        is_dev_mode: false,
        dev_url: "http://localhost:1420".to_string(),
        release_url: "tauri://localhost".to_string(),
    };
    let dev = mode.to_dev(&mut b);
    assert!(mode.is_dev_mode);
    assert_eq!(dev.stop.terminate, Some(100));
    assert!(!dev.stop.remove_lock_marker);
    assert_eq!(dev.navigate_to, "http://localhost:1420");
    assert_eq!(b.current_port(), None);
    assert!(b.lock.is_primary());

    let release = mode.to_release(&mut b);
    assert!(!mode.is_dev_mode);
    assert_eq!(release.navigate_to, "tauri://localhost");
    assert_eq!(release.start, Some(Step::ProbePort { port: 8009 }));
    assert_eq!(b.on_event(Event::PortProbed { free: true }), Step::CheckExecutable);
    assert_eq!(launch_checked(&mut b, 101), Step::Spawn { port: 8009 });
    assert_eq!(b.slot, Slot::Owned { pid: 101, port: 8009 });
}

#[test]
fn release_switch_on_secondary_starts_nothing() {
    let mut b = backend(false);
    let mut mode = ModeState { is_dev_mode: true, dev_url: "d".to_string(), release_url: "r".to_string() };
    let release = mode.to_release(&mut b);
    assert_eq!(release.start, None);
    assert_eq!(b.slot, Slot::Empty);
}

#[test]
fn resume_follows_saved_mode() {
    let mut b = backend(false);
    let dev = ModeState { is_dev_mode: true, dev_url: "d".to_string(), release_url: "r".to_string() };
    let r = dev.resume(&mut b);
    assert_eq!(r.start, None);
    assert_eq!(r.navigate_to, "d");
    let release = ModeState { is_dev_mode: false, ..dev };
    let r = release.resume(&mut b);
    assert_eq!(r.start, Some(Step::ScanPorts { start: 8010, count: 100 }));
    assert_eq!(r.navigate_to, "r");
}

#[test]
fn launch_failures_are_reported_and_leave_no_backend() {
    let mut b = backend(true);
    b.ensure_backend(true);
    b.on_event(Event::PortProbed { free: true });
    assert_eq!(
        b.on_event(Event::ExecutableChecked { found: false }),
        Step::Failed { error: BackendError::ExecutableNotFound { path: "python".to_string() } }
    );
    assert_eq!(b.slot, Slot::Empty);

    b.ensure_backend(true);
    b.on_event(Event::PortProbed { free: true });
    b.on_event(Event::ExecutableChecked { found: true });
    assert_eq!(
        b.on_event(Event::DependencyChecked { found: false }),
        Step::Failed { error: BackendError::DependencyMissing }
    );

    b.ensure_backend(true);
    b.on_event(Event::PortProbed { free: true });
    b.on_event(Event::ExecutableChecked { found: true });
    b.on_event(Event::DependencyChecked { found: true });
    assert_eq!(
        b.on_event(Event::SpawnFailed { reason: "no such file".to_string() }),
        Step::Failed { error: BackendError::SpawnFailed { reason: "no such file".to_string() } }
    );
    assert_eq!(b.slot, Slot::Empty);
}

#[test]
fn start_in_progress_answers_busy() {
    let mut b = backend(true);
    b.ensure_backend(true);
    assert_eq!(b.ensure_backend(true), Step::Busy);
    assert_eq!(b.slot, Slot::ProbingCanonical);
}

#[test]
fn out_of_order_events_are_ignored_and_late_workers_discarded() {
    let mut b = backend(true);
    assert_eq!(b.on_event(Event::HealthProbed { ours: true }), Step::Ignored);
    assert_eq!(b.on_event(Event::Spawned { pid: 55 }), Step::Discard { pid: 55 });
    b.ensure_backend(true);
    b.on_event(Event::PortProbed { free: true });
    b.on_event(Event::ExecutableChecked { found: true });
    b.on_event(Event::DependencyChecked { found: true });
    let plan = b.stop();
    assert_eq!(plan.terminate, None);
    assert_eq!(b.on_event(Event::Spawned { pid: 56 }), Step::Discard { pid: 56 });
    assert_eq!(b.slot, Slot::Empty);
}

#[test]
fn scan_window_is_clipped_at_last_port() {
    let mut config = PythonConfig::default();
    config.port = 65500;
    let mut b = Backend::new(config, InstanceLock::new(STALE_LOCK_SECS));
    assert_eq!(b.ensure_backend(true), Step::ScanPorts { start: 65501, count: 34 });
    let mut free = vec![false; 34];
    free[20] = true;
    assert_eq!(b.on_event(Event::PortsScanned { free }), Step::CheckExecutable);
    assert_eq!(launch_checked(&mut b, 5), Step::Spawn { port: 65521 });
}

#[test]
fn clipped_scan_without_free_port_falls_back_to_last_port() {
    let mut config = PythonConfig::default();
    config.port = 65500;
    let mut b = Backend::new(config, InstanceLock::new(STALE_LOCK_SECS));
    b.ensure_backend(true);
    b.on_event(Event::PortsScanned { free: vec![false; 34] });
    assert_eq!(launch_checked(&mut b, 5), Step::Spawn { port: 65535 });
}

#[test]
fn no_port_above_last_port_is_unavailable() {
    let mut config = PythonConfig::default();
    config.port = 65535;
    let mut b = Backend::new(config, InstanceLock::new(STALE_LOCK_SECS));
    assert_eq!(b.ensure_backend(true), Step::Failed { error: BackendError::PortUnavailable });
    assert_eq!(b.slot, Slot::Empty);
}

#[test]
fn stop_of_reused_backend_spares_adopted_port() {
    let mut b = backend(true);
    b.ensure_backend(true);
    b.on_event(Event::PortProbed { free: false });
    b.on_event(Event::HealthProbed { ours: true });
    assert_eq!(b.adopted, Some(8009));
    let mut mode = ModeState { is_dev_mode: false, dev_url: "d".to_string(), release_url: "r".to_string() };
    let dev = mode.to_dev(&mut b);
    assert_eq!(dev.stop.terminate, None);
    assert_eq!(dev.stop.reclaim_ports, vec![8008, 8010, 8011, 8012]);
    assert_eq!(b.teardown().reclaim_ports, vec![8008, 8010, 8011, 8012]);
}

#[test]
fn unexpected_exits_restart_then_give_up() {
    let mut b = running_primary(1);
    assert_eq!(b.on_process_exit(999), ExitAction::Ignore);
    for attempt in 1..=3u32 {
        assert_eq!(b.on_process_exit(attempt), ExitAction::Restart { attempt, last: attempt == 3 });
        assert_eq!(b.current_port(), None);
        assert_eq!(b.ensure_backend(false), Step::ProbePort { port: 8009 });
        b.on_event(Event::PortProbed { free: true });
        launch_checked(&mut b, attempt + 1);
    }
    assert_eq!(b.on_process_exit(4), ExitAction::Ignore);
    assert_eq!(b.policy.restarts, 3);
    b.ensure_backend(true);
    assert_eq!(b.policy.restarts, 0);
}

#[test]
fn exit_without_auto_restart_is_not_restarted() {
    let mut config = PythonConfig::default();
    config.auto_restart = false;
    let mut lock = InstanceLock::new(STALE_LOCK_SECS);
    lock.on_create_attempt(CreateOutcome::Created);
    let mut b = Backend::new(config, lock);
    b.ensure_backend(true);
    b.on_event(Event::PortProbed { free: true });
    launch_checked(&mut b, 9);
    assert_eq!(b.on_process_exit(9), ExitAction::Ignore);
    assert_eq!(b.slot, Slot::Empty);
}
