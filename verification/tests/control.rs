use sssd::daemon::{daemon_plan, DaemonDecision};
use sssd::lifecycle::{daemon_decision, status, stop, stop_instances};
use sssd::procs::{status_message, ProcessInfo};

fn entry(pid: u32, name: &str) -> ProcessInfo {
    ProcessInfo { pid, name: name.to_string() }
}

#[test]
fn running_instance_is_reported() {
    let procs = vec![entry(1, "init"), entry(4242, "app"), entry(4243, "app")];
    let (msg, running) = status_message("app", 1, &procs);
    assert!(running);
    assert_eq!(msg, "<4242> \"app\" is running.");
    assert!(msg.contains("4242") && msg.contains("running"));
}

#[test]
fn no_instance_reports_stopped() {
    let procs = vec![entry(1, "init"), entry(2, "other")];
    let (msg, running) = status_message("app", 1, &procs);
    assert!(!running);
    assert_eq!(msg, "app is stopped!");
}

#[test]
fn own_process_is_never_reported() {
    let procs = vec![entry(7, "app")];
    let (msg, running) = status_message("app", 7, &procs);
    assert!(!running);
    assert_eq!(msg, "app is stopped!");
}

#[test]
fn own_process_is_skipped_for_a_later_match() {
    let procs = vec![entry(7, "app"), entry(9, "app")];
    let (msg, running) = status_message("app", 7, &procs);
    assert!(running);
    assert_eq!(msg, "<9> \"app\" is running.");
}

// The fabricated identifiers lie far above any real pid, so the
// termination requests of `stop_instances` find no live process.
#[test]
fn stop_announces_one_line_per_match() {
    let sys = sysinfo::System::new();
    let procs = vec![
        entry(4_000_000_001, "app"),
        entry(4_000_000_002, "other"),
        entry(4_000_000_003, "app"),
        entry(77, "app"),
    ];
    let msgs = stop_instances(&sys, "app", 77, &procs);
    let expected = vec![
        "<4000000001> \"app\" is stopping...".to_string(),
        "<4000000003> \"app\" is stopping...".to_string(),
    ];
    assert_eq!(msgs, expected);
}

#[test]
fn stop_with_no_match_announces_nothing() {
    let sys = sysinfo::System::new();
    let procs = vec![entry(4_000_000_001, "other")];
    let msgs = stop_instances(&sys, "app", 77, &procs);
    assert!(msgs.is_empty());
}

#[test]
fn stop_with_single_match_announces_one_line() {
    let sys = sysinfo::System::new();
    let procs = vec![entry(4_000_000_001, "app")];
    let msgs = stop_instances(&sys, "app", 77, &procs);
    assert_eq!(msgs, vec!["<4000000001> \"app\" is stopping...".to_string()]);
}

#[test]
fn daemon_plans_a_launch_when_nothing_runs() {
    let procs = vec![entry(77, "app")];
    match daemon_plan("app", 77, &procs) {
        DaemonDecision::Launch(plan) => {
            assert_eq!(plan.program, "./app");
            assert_eq!(plan.arg, "start");
            assert_eq!(plan.log_dir, "./logs");
            assert_eq!(plan.log_file, "./logs/app.log");
        },
        DaemonDecision::AlreadyRunning(_) => panic!("expected a launch plan"),
    }
}

#[test]
fn daemon_spawns_nothing_once_an_instance_runs() {
    let procs = vec![entry(77, "app"), entry(4242, "app")];
    match daemon_plan("app", 77, &procs) {
        DaemonDecision::AlreadyRunning(msg) => {
            assert_eq!(msg, "<4242> \"app\" is running.");
        },
        DaemonDecision::Launch(_) => panic!("expected the running instance to be detected"),
    }
}

#[test]
fn live_status_of_unlikely_name_is_stopped() {
    let (msg, running) = status("name_no_process_carries_x9z");
    assert!(!running);
    assert_eq!(msg, "name_no_process_carries_x9z is stopped!");
}

#[test]
fn live_stop_of_unlikely_name_signals_nothing() {
    assert!(stop("name_no_process_carries_x9z").is_empty());
}

#[test]
fn live_daemon_decision_of_unlikely_name_plans_a_launch() {
    match daemon_decision("name_no_process_carries_x9z") {
        Some(DaemonDecision::Launch(plan)) => {
            assert_eq!(plan.program, "./name_no_process_carries_x9z");
            assert_eq!(plan.log_file, "./logs/name_no_process_carries_x9z.log");
        },
        _ => panic!("expected a launch plan"),
    }
}
