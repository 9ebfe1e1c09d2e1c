use clipse::daemon::{
    daemon_state, get_log_file_path, liveness_report, read_pid_file, Daemon, DaemonState,
    LifecycleError, LivenessReport, StopAction, StopEvent, StopPhase, PID_FILE, STDERR_FILE,
    STDOUT_FILE, STOP_POLLS, STOP_WAIT_MILLIS, WORKING_DIRECTORY,
};

#[test]
fn marker_holds_one_decimal_process_id() {
    assert_eq!(read_pid_file("4711\n"), Some(4711));
    assert_eq!(read_pid_file("  12 "), Some(12));
    assert_eq!(read_pid_file(""), None);
    assert_eq!(read_pid_file("pid 12"), None);
    assert_eq!(read_pid_file("12 13"), None);
}

#[test]
fn stale_marker_counts_as_absent() {
    assert_eq!(daemon_state(Some("4711\n"), false), DaemonState::Stopped);
    assert!(!daemon_state(Some("4711\n"), false).is_running());
    assert_eq!(daemon_state(None, false), DaemonState::Stopped);
    assert_eq!(daemon_state(None, true), DaemonState::Stopped);
}

#[test]
fn live_marker_means_running() {
    assert_eq!(daemon_state(Some("4711\n"), true), DaemonState::Running(4711));
    assert!(daemon_state(Some("4711\n"), true).is_running());
}

#[test]
fn marker_without_a_pid_is_unknown_and_not_running() {
    assert_eq!(daemon_state(Some("garbage"), true), DaemonState::Unknown);
    assert_eq!(daemon_state(Some(""), false), DaemonState::Unknown);
    assert!(!daemon_state(Some("garbage"), true).is_running());
}

#[test]
fn daemon_uses_the_fixed_paths() {
    let daemon = Daemon::new();
    assert_eq!(daemon.pid_file, PID_FILE);
    assert_eq!(daemon.stdout_file, STDOUT_FILE);
    assert_eq!(daemon.stderr_file, STDERR_FILE);
    assert_eq!(daemon.working_directory, WORKING_DIRECTORY);
    assert_eq!(daemon.working_directory, "/tmp");
    assert_eq!(daemon.stop_wait_millis, 500);
    assert_eq!(daemon.stop_wait_millis, STOP_WAIT_MILLIS);
    assert_eq!(daemon.stop_polls, STOP_POLLS);
    assert_eq!(get_log_file_path(), STDOUT_FILE);
}

#[test]
fn start_on_a_running_daemon_is_refused() {
    let daemon = Daemon::new();
    let refused = daemon.start_from(DaemonState::Running(4711));
    assert!(matches!(refused, Err(LifecycleError::AlreadyRunning)));
}

#[test]
fn start_on_a_stopped_daemon_hands_out_the_plan() {
    let daemon = Daemon::new();
    for state in [DaemonState::Stopped, DaemonState::Unknown] {
        let plan = daemon.start_from(state).expect("a plan");
        assert_eq!(plan.pid_file, PID_FILE);
        assert_eq!(plan.stdout_file, STDOUT_FILE);
        assert_eq!(plan.stderr_file, STDERR_FILE);
        assert_eq!(plan.working_directory, "/tmp");
    }
}

#[test]
fn marker_absent_then_started_then_running() {
    let daemon = Daemon::new();
    assert!(!daemon.is_running(None));
    let plan = daemon.start(None).expect("no daemon runs");
    assert_eq!(plan.pid_file, daemon.pid_file);
    let mine = sysinfo::get_current_pid().expect("a process id").as_u32();
    let marker = format!("{}\n", mine);
    assert!(daemon.is_running(Some(&marker)));
    match daemon.status(Some(&marker)) {
        LivenessReport::Running { pid, .. } => assert_eq!(pid as u32, mine),
        LivenessReport::Stopped => panic!("the daemon runs"),
    }
    assert!(matches!(daemon.start(Some(&marker)), Err(LifecycleError::AlreadyRunning)));
}

#[test]
fn marker_of_a_dead_process_is_not_running() {
    let daemon = Daemon::new();
    let marker = "2147483646";
    assert!(!daemon.is_running(Some(marker)));
    assert_eq!(daemon.state(Some(marker)), DaemonState::Stopped);
    assert_eq!(daemon.status(Some(marker)), LivenessReport::Stopped);
    assert!(daemon.start(Some(marker)).is_ok());
    assert!(matches!(daemon.stop(Some(marker)), Err(LifecycleError::NotRunning)));
}

#[test]
fn marker_without_a_pid_is_never_looked_up() {
    let daemon = Daemon::new();
    assert!(!daemon.is_running(Some("not a pid")));
    assert_eq!(daemon.state(Some("not a pid")), DaemonState::Unknown);
    assert_eq!(daemon.status(Some("not a pid")), LivenessReport::Stopped);
    assert_eq!(daemon.status(None), LivenessReport::Stopped);
    assert!(matches!(daemon.stop(None), Err(LifecycleError::NotRunning)));
}

#[test]
fn stop_on_a_stopped_daemon_sends_no_signal() {
    let daemon = Daemon::new();
    assert!(matches!(daemon.stop_from(DaemonState::Stopped), Err(LifecycleError::NotRunning)));
    assert!(matches!(daemon.stop_from(DaemonState::Unknown), Err(LifecycleError::NotRunning)));
}

#[test]
fn stop_signals_waits_and_removes_the_marker() {
    let daemon = Daemon::new();
    let mut sequence = daemon.stop_from(DaemonState::Running(4711)).expect("a sequence");
    assert_eq!(sequence.pid, 4711);
    assert_eq!(sequence.phase, StopPhase::Signalling);
    assert!(matches!(sequence.next_action(), StopAction::SendTerminate { pid: 4711 }));
    assert!(matches!(
        sequence.step(StopEvent::Signalled { sent: true }),
        StopAction::WaitThenProbe { pid: 4711, millis: 500 }
    ));
    assert!(matches!(sequence.step(StopEvent::Probed { alive: false }), StopAction::RemoveMarker));
    assert!(matches!(sequence.step(StopEvent::MarkerRemoved), StopAction::Finish(Ok(()))));
    assert_eq!(sequence.phase, StopPhase::Stopped);
    assert!(matches!(sequence.step(StopEvent::Signalled { sent: true }), StopAction::Finish(Ok(()))));
}

#[test]
fn stop_times_out_without_a_second_signal() {
    let daemon = Daemon::new();
    let mut sequence = daemon.stop_from(DaemonState::Running(9)).expect("a sequence");
    sequence.record(StopEvent::Signalled { sent: true });
    let action = sequence.step(StopEvent::Probed { alive: true });
    assert!(matches!(action, StopAction::Finish(Err(LifecycleError::StopTimeout))));
    assert_eq!(sequence.phase, StopPhase::TimedOut);
    assert!(matches!(
        sequence.step(StopEvent::Probed { alive: false }),
        StopAction::Finish(Err(LifecycleError::StopTimeout))
    ));
}

#[test]
fn stop_polls_as_often_as_configured() {
    let mut daemon = Daemon::new();
    daemon.stop_polls = 3;
    daemon.stop_wait_millis = 100;
    let mut sequence = daemon.stop_from(DaemonState::Running(9)).expect("a sequence");
    assert!(matches!(
        sequence.step(StopEvent::Signalled { sent: true }),
        StopAction::WaitThenProbe { pid: 9, millis: 100 }
    ));
    assert!(matches!(sequence.step(StopEvent::Probed { alive: true }), StopAction::WaitThenProbe { .. }));
    assert_eq!(sequence.phase, StopPhase::Waiting { polls_left: 2 });
    assert!(matches!(sequence.step(StopEvent::Probed { alive: true }), StopAction::WaitThenProbe { .. }));
    assert!(matches!(sequence.step(StopEvent::Probed { alive: false }), StopAction::RemoveMarker));
    daemon.stop_polls = 0;
    let mut none = daemon.stop_from(DaemonState::Running(9)).expect("a sequence");
    assert!(matches!(
        none.step(StopEvent::Signalled { sent: true }),
        StopAction::Finish(Err(LifecycleError::StopTimeout))
    ));
}

#[test]
fn signal_that_cannot_be_sent_means_not_running() {
    let daemon = Daemon::new();
    let mut sequence = daemon.stop_from(DaemonState::Running(9)).expect("a sequence");
    assert!(matches!(
        sequence.step(StopEvent::Signalled { sent: false }),
        StopAction::Finish(Err(LifecycleError::NotRunning))
    ));
    assert_eq!(sequence.phase, StopPhase::Vanished);
}

#[test]
fn unexpected_stop_reports_change_nothing() {
    let daemon = Daemon::new();
    let mut sequence = daemon.stop_from(DaemonState::Running(9)).expect("a sequence");
    assert!(matches!(sequence.step(StopEvent::Probed { alive: false }), StopAction::SendTerminate { pid: 9 }));
    assert!(matches!(sequence.step(StopEvent::MarkerRemoved), StopAction::SendTerminate { pid: 9 }));
}

#[test]
fn report_gives_memory_in_units_of_1024_bytes() {
    assert_eq!(
        liveness_report(DaemonState::Running(5), Some(10 * 1024 + 1023)),
        LivenessReport::Running { pid: 5, memory_kb: Some(10) }
    );
    assert_eq!(
        liveness_report(DaemonState::Running(5), None),
        LivenessReport::Running { pid: 5, memory_kb: None }
    );
    assert_eq!(liveness_report(DaemonState::Stopped, Some(4096)), LivenessReport::Stopped);
    assert_eq!(liveness_report(DaemonState::Unknown, None), LivenessReport::Stopped);
}

#[test]
fn detach_failure_carries_its_reason() {
    match Daemon::detach_failed("fork failed".to_string()) {
        LifecycleError::DetachFailed(reason) => assert_eq!(reason, "fork failed"),
        other => panic!("unexpected error {:?}", other),
    }
}
