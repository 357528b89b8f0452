use capscan::gate::{await_ready, readiness_decision, GateOutcome, GateStep};
use capscan::lifecycle::{
    cleanup, step, ArtifactState, LifecycleAction, LifecycleEvent, Phase, StopFlag,
};
use capscan::reader::{read_next, CapturePoll, ReadOutcome};
use capscan::text::{parse_interface_choice, pick_first_available};

#[test]
fn pending_n_times_then_line() {
    // Three polls with no data but a live producer, then a line: the reader
    // yields Pending three times and the line on the fourth attempt, never
    // Terminated.
    let mut outcomes = Vec::new();
    for _ in 0..3 {
        outcomes.push(read_next(CapturePoll::NoData { producer_alive: true }));
    }
    outcomes.push(read_next(CapturePoll::Data(b"00e0 48 65".to_vec())));
    for out in &outcomes[..3] {
        assert!(matches!(out, ReadOutcome::Pending));
    }
    match &outcomes[3] {
        ReadOutcome::Line(l) => assert_eq!(l, &b"00e0 48 65".to_vec()),
        _ => panic!("expected the line on the fourth attempt"),
    }
    assert!(!outcomes.iter().any(|o| matches!(o, ReadOutcome::Terminated)));
}

#[test]
fn dead_producer_terminates_and_pipeline_stops() {
    let out = read_next(CapturePoll::NoData { producer_alive: false });
    assert!(matches!(out, ReadOutcome::Terminated));
    let (phase, action) = step(Phase::Running, LifecycleEvent::ReaderTerminated);
    assert_eq!(phase, Phase::Stopping);
    assert_eq!(action, LifecycleAction::KillProducer);
}

#[test]
fn happy_path_reaches_terminated_with_cleanup() {
    let (p, a) = step(Phase::Starting, LifecycleEvent::ReadinessOk);
    assert_eq!((p, a), (Phase::Attaching, LifecycleAction::NoAction));
    let (p, a) = step(p, LifecycleEvent::AttachOk);
    assert_eq!((p, a), (Phase::Running, LifecycleAction::NoAction));
    let (p, a) = step(p, LifecycleEvent::CancelRequested);
    assert_eq!((p, a), (Phase::Stopping, LifecycleAction::KillProducer));
    let (p, a) = step(p, LifecycleEvent::ProducerReleased);
    assert_eq!((p, a), (Phase::Terminated, LifecycleAction::RemoveArtifact));
}

#[test]
fn readiness_timeout_is_fatal_startup_failure() {
    let (p, a) = step(Phase::Starting, LifecycleEvent::ReadinessTimedOut);
    assert_eq!(p, Phase::Terminated);
    assert_eq!(a, LifecycleAction::RemoveArtifact);
}

#[test]
fn attach_failure_kills_producer() {
    let (p, a) = step(Phase::Attaching, LifecycleEvent::AttachFailed);
    assert_eq!((p, a), (Phase::Stopping, LifecycleAction::KillProducer));
}

#[test]
fn terminated_absorbs_every_event() {
    for ev in [
        LifecycleEvent::ReadinessOk,
        LifecycleEvent::CancelRequested,
        LifecycleEvent::ReaderTerminated,
        LifecycleEvent::ProducerReleased,
    ] {
        let (p, a) = step(Phase::Terminated, ev);
        assert_eq!((p, a), (Phase::Terminated, LifecycleAction::NoAction));
    }
}

#[test]
fn stop_flag_only_moves_to_stopping() {
    let mut f = StopFlag::new();
    assert!(!f.should_stop());
    f.request_stop();
    assert!(f.should_stop());
    f.request_stop();
    assert!(f.should_stop());
}

#[test]
fn cleanup_twice_is_a_no_op() {
    // Normal exit removes the artifact; the handler-triggered cleanup runs
    // after it and must neither fail nor bring anything back.
    let mut s = ArtifactState { artifact_present: true };
    cleanup(&mut s);
    assert!(!s.artifact_present);
    cleanup(&mut s);
    assert!(!s.artifact_present);
}

#[test]
fn gate_ready_once_content_appears() {
    assert_eq!(await_ready(&vec![0, 0, 5], 10), GateOutcome::Ready);
}

#[test]
fn gate_times_out_without_content() {
    assert_eq!(await_ready(&vec![0, 0, 0], 10), GateOutcome::TimedOut);
    assert_eq!(await_ready(&Vec::new(), 10), GateOutcome::TimedOut);
}

#[test]
fn gate_times_out_when_budget_spent_first() {
    assert_eq!(await_ready(&vec![0, 0, 5], 2), GateOutcome::TimedOut);
}

#[test]
fn readiness_decision_cases() {
    assert_eq!(readiness_decision(17, 0, 10), GateStep::Ready);
    assert_eq!(readiness_decision(0, 10, 10), GateStep::TimedOut);
    assert_eq!(readiness_decision(0, 3, 10), GateStep::PollAgain);
}

#[test]
fn interface_choice_trims_input() {
    assert_eq!(parse_interface_choice(b"  1 \n"), Some(b"1".to_vec()));
    assert_eq!(parse_interface_choice(b"eth0"), Some(b"eth0".to_vec()));
}

#[test]
fn blank_interface_choice_is_rejected() {
    assert_eq!(parse_interface_choice(b"   \n"), None);
    assert_eq!(parse_interface_choice(b""), None);
}

#[test]
fn first_available_candidate_wins() {
    assert_eq!(pick_first_available(&vec![false, true, true]), Some(1));
    assert_eq!(pick_first_available(&vec![false, false]), None);
    assert_eq!(pick_first_available(&Vec::new()), None);
}
