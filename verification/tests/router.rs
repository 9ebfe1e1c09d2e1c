use clipse::router::{DeliveryOutcome, DeliveryRouter, RouterAction, RouterEvent};

fn failed() -> RouterEvent {
    RouterEvent::Attempted(DeliveryOutcome::BackendAttemptedButFailed("no matching session".to_string()))
}

fn unavailable() -> RouterEvent {
    RouterEvent::Attempted(DeliveryOutcome::BackendUnavailable)
}

fn delivered() -> RouterEvent {
    RouterEvent::Attempted(DeliveryOutcome::Delivered)
}

#[test]
fn three_backends_third_delivers() {
    let mut router = DeliveryRouter::new("hello".to_string(), 2, 1, vec![42]);
    let mut attempts: Vec<String> = Vec::new();

    let first = router.next_action();
    assert!(matches!(first, RouterAction::TryAddressed { backend: 0 }));
    attempts.push("addressed 0".to_string());

    let second = router.step(failed());
    assert!(matches!(second, RouterAction::TryAddressed { backend: 1 }));
    attempts.push("addressed 1".to_string());

    let resolve = router.step(unavailable());
    assert!(matches!(resolve, RouterAction::ResolveDevice { pid: 42 }));

    let third = router.step(RouterEvent::Resolved(Some("/dev/ttys003".to_string())));
    match third {
        RouterAction::TryByDevice { backend, device } => {
            assert_eq!(backend, 0);
            assert_eq!(device, "/dev/ttys003");
            attempts.push("device 0".to_string());
        }
        other => panic!("unexpected action {:?}", other),
    }

    let end = router.step(delivered());
    assert!(matches!(end, RouterAction::Finish(DeliveryOutcome::Delivered)));
    assert!(router.is_finished());
    assert!(matches!(router.verdict(), Some(DeliveryOutcome::Delivered)));
    assert_eq!(attempts, vec!["addressed 0", "addressed 1", "device 0"]);
}

#[test]
fn first_delivery_ends_the_chain() {
    let mut router = DeliveryRouter::new("m".to_string(), 3, 1, vec![7, 8]);
    assert!(matches!(router.next_action(), RouterAction::TryAddressed { backend: 0 }));
    let end = router.step(delivered());
    assert!(matches!(end, RouterAction::Finish(DeliveryOutcome::Delivered)));
    assert!(matches!(router.step(failed()), RouterAction::Finish(DeliveryOutcome::Delivered)));
    assert!(matches!(
        router.step(RouterEvent::Resolved(Some("/dev/ttys001".to_string()))),
        RouterAction::Finish(DeliveryOutcome::Delivered)
    ));
    assert!(matches!(router.step(delivered()), RouterAction::Finish(DeliveryOutcome::Delivered)));
}

#[test]
fn no_candidates_means_no_target_and_no_attempt() {
    let mut router = DeliveryRouter::new("m".to_string(), 3, 1, Vec::new());
    assert!(router.is_finished());
    assert!(matches!(router.next_action(), RouterAction::Finish(DeliveryOutcome::NoTargetFound)));
    assert!(matches!(router.verdict(), Some(DeliveryOutcome::NoTargetFound)));
    assert!(matches!(router.step(delivered()), RouterAction::Finish(DeliveryOutcome::NoTargetFound)));
    assert!(matches!(
        router.step(RouterEvent::Resolved(Some("/dev/ttys001".to_string()))),
        RouterAction::Finish(DeliveryOutcome::NoTargetFound)
    ));
}

#[test]
fn exhausted_chain_reports_no_target() {
    let mut router = DeliveryRouter::new("m".to_string(), 1, 2, vec![10, 11]);
    assert!(matches!(router.next_action(), RouterAction::TryAddressed { backend: 0 }));
    assert!(matches!(router.step(unavailable()), RouterAction::ResolveDevice { pid: 10 }));
    assert!(matches!(
        router.step(RouterEvent::Resolved(Some("/dev/a".to_string()))),
        RouterAction::TryByDevice { backend: 0, .. }
    ));
    assert!(matches!(router.step(failed()), RouterAction::TryByDevice { backend: 1, .. }));
    assert!(matches!(router.step(failed()), RouterAction::ResolveDevice { pid: 11 }));
    assert!(matches!(
        router.step(RouterEvent::Resolved(None)),
        RouterAction::Finish(DeliveryOutcome::NoTargetFound)
    ));
    assert!(matches!(router.verdict(), Some(DeliveryOutcome::NoTargetFound)));
}

#[test]
fn candidate_without_device_is_passed_over() {
    let mut router = DeliveryRouter::new("m".to_string(), 0, 1, vec![1, 2]);
    assert!(matches!(router.next_action(), RouterAction::ResolveDevice { pid: 1 }));
    assert!(matches!(router.step(RouterEvent::Resolved(None)), RouterAction::ResolveDevice { pid: 2 }));
    let action = router.step(RouterEvent::Resolved(Some("/dev/ttys9".to_string())));
    match action {
        RouterAction::TryByDevice { backend, device } => {
            assert_eq!(backend, 0);
            assert_eq!(device, "/dev/ttys9");
        }
        other => panic!("unexpected action {:?}", other),
    }
    assert!(matches!(router.step(delivered()), RouterAction::Finish(DeliveryOutcome::Delivered)));
}

#[test]
fn chain_without_backends_ends_at_once() {
    let router = DeliveryRouter::new("m".to_string(), 0, 0, vec![1]);
    assert!(matches!(router.next_action(), RouterAction::Finish(DeliveryOutcome::NoTargetFound)));
    let only_addressed = DeliveryRouter::new("m".to_string(), 1, 0, vec![1]);
    assert!(matches!(only_addressed.next_action(), RouterAction::TryAddressed { backend: 0 }));
}

#[test]
fn unexpected_reports_change_nothing() {
    let mut router = DeliveryRouter::new("m".to_string(), 1, 1, vec![5]);
    assert!(matches!(
        router.step(RouterEvent::Resolved(Some("/dev/x".to_string()))),
        RouterAction::TryAddressed { backend: 0 }
    ));
    assert!(matches!(router.step(unavailable()), RouterAction::ResolveDevice { pid: 5 }));
    assert!(matches!(router.step(delivered()), RouterAction::ResolveDevice { pid: 5 }));
    assert!(!router.is_finished());
    assert!(router.verdict().is_none());
}

#[test]
fn a_backend_that_finds_no_target_is_passed_over() {
    let mut router = DeliveryRouter::new("m".to_string(), 2, 0, vec![5]);
    assert!(matches!(
        router.step(RouterEvent::Attempted(DeliveryOutcome::NoTargetFound)),
        RouterAction::TryAddressed { backend: 1 }
    ));
}

#[test]
fn router_keeps_message_and_candidates() {
    let router = DeliveryRouter::new("/tmp/x.png Analyze this image".to_string(), 3, 1, vec![3, 1, 2]);
    assert_eq!(router.message(), "/tmp/x.png Analyze this image");
    assert_eq!(router.candidates(), &vec![3, 1, 2]);
}
