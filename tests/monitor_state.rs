use microsandbox_monitor::monitor::{MicroVmMonitor, Timestamp};
use microsandbox_monitor::rootfs::Rootfs;
use microsandbox_monitor::store::{SandboxStatus, SANDBOX_STATUS_RUNNING, SANDBOX_STATUS_STOPPED};
use microsandbox_monitor::terminal::TerminalGuard;

fn monitor(forward: bool) -> MicroVmMonitor {
    MicroVmMonitor::new(
        100,
        "app".to_string(),
        "Sandboxfile".to_string(),
        Timestamp { secs: 1_700_000_000, nanos: 5 },
        "/logs".to_string(),
        Rootfs::Overlayfs(vec!["/a".to_string(), "/b".to_string()]),
        forward,
    )
}

#[test]
fn start_plan_holds_running_record() {
    let m = monitor(false);
    let p = m.plan_start(4242);
    assert_eq!(p.log_dir, "/logs/Sandboxfile");
    assert_eq!(p.log_path, "/logs/Sandboxfile/app.log");
    assert_eq!(p.record.name, "app");
    assert_eq!(p.record.config_file, "Sandboxfile");
    assert_eq!(p.record.status, SandboxStatus::Running);
    assert_eq!(p.record.status.as_str(), "RUNNING");
    assert_eq!(p.record.supervisor_pid, 100);
    assert_eq!(p.record.microvm_pid, 4242);
    assert_eq!(p.record.rootfs, "overlayfs:/a:/b");
    assert_eq!(p.record.config_last_modified, Timestamp { secs: 1_700_000_000, nanos: 5 });
}

#[test]
fn start_then_stop_lifecycle() {
    let mut m = monitor(true);
    assert!(m.log_path.is_none());
    let p = m.plan_start(7);
    m.on_log_opened(p.log_path.clone());
    assert_eq!(m.log_path.as_deref(), Some("/logs/Sandboxfile/app.log"));
    let u = m.stop_update();
    assert_eq!(u.name, "app");
    assert_eq!(u.config_file, "Sandboxfile");
    assert_eq!(u.status, SandboxStatus::Stopped);
    assert_eq!(u.status.as_str(), SANDBOX_STATUS_STOPPED);
    assert!(m.release_terminal().is_none());
    m.on_stopped();
    assert!(m.log_path.is_none());
}

#[test]
fn status_literals() {
    assert_eq!(SANDBOX_STATUS_RUNNING, "RUNNING");
    assert_eq!(SANDBOX_STATUS_STOPPED, "STOPPED");
}

#[test]
fn relay_follows_forwarding_setting() {
    assert!(monitor(true).new_relay().forward_output);
    assert!(!monitor(false).new_relay().forward_output);
}

#[test]
fn terminal_restored_once_after_stop() {
    let mut g: TerminalGuard<u32> = TerminalGuard::new();
    assert!(!g.is_captured());
    g.capture(17);
    assert!(g.is_captured());
    assert_eq!(g.release(), Some(17));
    assert_eq!(g.release(), None);
    assert_eq!(g.release(), None);
}

#[test]
fn terminal_restored_on_teardown_without_stop() {
    let mut g: TerminalGuard<u32> = TerminalGuard::new();
    g.capture(3);
    // teardown releases what a stop never took
    assert_eq!(g.release(), Some(3));
    assert!(!g.is_captured());
}

#[test]
fn no_capture_nothing_to_restore() {
    let mut g: TerminalGuard<u32> = TerminalGuard::new();
    assert_eq!(g.release(), None);
}
