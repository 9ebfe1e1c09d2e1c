use clipse::keystroke::{KeystrokeProbe, ProbeAction, ProbeEvent};
use clipse::router::DeliveryOutcome;
use clipse::script::ScriptRun;

fn terminal(name: &str) -> ProbeEvent {
    ProbeEvent::Terminal(Some(name.to_string()))
}

fn typed(success: bool, stdout: &str) -> ProbeEvent {
    ProbeEvent::Typed(ScriptRun::Exited { success, stdout: stdout.to_string(), stderr: String::new() })
}

#[test]
fn probe_types_where_a_candidate_runs_under_ghostty() {
    let mut probe = KeystrokeProbe::new(vec![10, 20]);
    assert!(matches!(probe.next_action(), ProbeAction::FindTerminal { pid: 10 }));
    assert!(matches!(probe.step(terminal("iTerm2")), ProbeAction::FindTerminal { pid: 20 }));
    assert!(matches!(probe.step(terminal("/Applications/Ghostty.app/ghostty")), ProbeAction::TypeMessage));
    assert!(matches!(probe.step(typed(true, "true\n")), ProbeAction::Finish(DeliveryOutcome::Delivered)));
    assert!(probe.is_settled());
    assert!(matches!(probe.step(terminal("ghostty")), ProbeAction::Finish(DeliveryOutcome::Delivered)));
}

#[test]
fn probe_without_ghostty_is_unavailable() {
    let mut probe = KeystrokeProbe::new(vec![10, 20]);
    assert!(matches!(probe.step(terminal("Terminal")), ProbeAction::FindTerminal { pid: 20 }));
    assert!(matches!(
        probe.step(ProbeEvent::Terminal(None)),
        ProbeAction::Finish(DeliveryOutcome::BackendUnavailable)
    ));
    let empty = KeystrokeProbe::new(Vec::new());
    assert!(empty.is_settled());
    assert!(matches!(empty.next_action(), ProbeAction::Finish(DeliveryOutcome::BackendUnavailable)));
}

#[test]
fn probe_goes_on_after_a_window_that_was_not_there() {
    let mut probe = KeystrokeProbe::new(vec![1, 2]);
    assert!(matches!(probe.step(terminal("GHOSTTY")), ProbeAction::TypeMessage));
    assert!(matches!(probe.step(typed(true, "false")), ProbeAction::FindTerminal { pid: 2 }));
    assert!(matches!(probe.step(terminal("ghostty")), ProbeAction::TypeMessage));
    match probe.step(typed(true, "")) {
        ProbeAction::Finish(DeliveryOutcome::BackendAttemptedButFailed(reason)) => {
            assert_eq!(reason, "no matching session")
        }
        other => panic!("unexpected action {:?}", other),
    }
}

#[test]
fn probe_stops_where_ghostty_cannot_be_driven() {
    let mut probe = KeystrokeProbe::new(vec![1, 2]);
    probe.step(terminal("ghostty"));
    assert!(matches!(
        probe.step(typed(false, "true")),
        ProbeAction::Finish(DeliveryOutcome::BackendUnavailable)
    ));
    let mut other = KeystrokeProbe::new(vec![1, 2]);
    other.step(terminal("ghostty"));
    match other.step(ProbeEvent::Typed(ScriptRun::NotStarted("no osascript".to_string()))) {
        ProbeAction::Finish(DeliveryOutcome::BackendAttemptedButFailed(reason)) => {
            assert_eq!(reason, "no osascript")
        }
        action => panic!("unexpected action {:?}", action),
    }
}

#[test]
fn probe_ignores_reports_it_does_not_wait_for() {
    let mut probe = KeystrokeProbe::new(vec![1]);
    assert!(matches!(probe.step(typed(true, "true")), ProbeAction::FindTerminal { pid: 1 }));
    assert!(matches!(probe.step(terminal("ghostty")), ProbeAction::TypeMessage));
    assert!(matches!(probe.step(terminal("ghostty")), ProbeAction::TypeMessage));
    assert!(!probe.is_settled());
}
