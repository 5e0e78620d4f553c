use flux_turn_taking::coordinator::{Coordinator, HarnessAction, HarnessEvent, HarnessPhase};

#[test]
fn hung_worker_forces_exit_at_the_deadline() {
    let mut c = Coordinator::new(3, 2_000);
    assert_eq!(c.step(HarnessEvent::Trigger, 10_000), HarnessAction::CloseProducer);
    assert_eq!(c.phase(), HarnessPhase::ShuttingDown);
    assert_eq!(c.deadline_at(), 12_000);
    c.step(HarnessEvent::WorkerFinished(0), 10_100);
    c.step(HarnessEvent::WorkerFinished(2), 10_200);
    assert_eq!(c.step(HarnessEvent::Tick, 11_999), HarnessAction::Nothing);
    assert_eq!(c.step(HarnessEvent::Tick, 12_000), HarnessAction::ExitForced);
    assert_eq!(c.phase(), HarnessPhase::ForcedExit);
    assert_eq!(c.outstanding(), vec![1]);
    assert_eq!(c.step(HarnessEvent::WorkerFinished(1), 12_001), HarnessAction::Nothing);
    assert_eq!(c.phase(), HarnessPhase::ForcedExit);
}

#[test]
fn all_workers_finishing_joins() {
    let mut c = Coordinator::new(2, 2_000);
    c.step(HarnessEvent::WorkerFinished(1), 5);
    assert_eq!(c.phase(), HarnessPhase::Running);
    c.step(HarnessEvent::Trigger, 10);
    assert_eq!(c.step(HarnessEvent::WorkerFinished(0), 20), HarnessAction::ExitJoined);
    assert_eq!(c.phase(), HarnessPhase::Joined);
    assert!(c.outstanding().is_empty());
    assert_eq!(c.step(HarnessEvent::Tick, 1_000_000), HarnessAction::Nothing);
    assert_eq!(c.phase(), HarnessPhase::Joined);
}

#[test]
fn trigger_is_taken_once() {
    let mut c = Coordinator::new(1, 100);
    assert_eq!(c.step(HarnessEvent::Trigger, 1), HarnessAction::CloseProducer);
    assert_eq!(c.step(HarnessEvent::Trigger, 50), HarnessAction::Nothing);
    assert_eq!(c.deadline_at(), 101);
}

#[test]
fn no_workers_join_at_first_tick() {
    let mut c = Coordinator::new(0, 100);
    c.step(HarnessEvent::Trigger, 1);
    assert_eq!(c.step(HarnessEvent::Tick, 2), HarnessAction::ExitJoined);
}
