use flux_turn_taking::event::ProtocolEvent;
use flux_turn_taking::worker::{FailReason, Worker, WorkerAction, WorkerEvent, WorkerState};

fn streaming(timeout_ms: u64, now: u64) -> Worker {
    let mut w = Worker::new(0, timeout_ms);
    assert_eq!(w.step(WorkerEvent::Connected, now), WorkerAction::Nothing);
    assert_eq!(w.state, WorkerState::Streaming);
    w
}

#[test]
fn quiet_peer_closes_at_the_inactivity_deadline() {
    let mut w = streaming(500, 1_000);
    w.step(WorkerEvent::Text(40, Some(ProtocolEvent::Results)), 1_200);
    assert_eq!(w.step(WorkerEvent::SourceEnded, 1_300), WorkerAction::SendCloseStream);
    assert_eq!(w.state, WorkerState::Draining);
    assert_eq!(w.deadline(), 1_700);
    assert_eq!(w.step(WorkerEvent::Tick, 1_699), WorkerAction::Nothing);
    assert_eq!(w.state, WorkerState::Draining);
    assert_eq!(w.step(WorkerEvent::Tick, 1_700), WorkerAction::CloseSession);
    assert_eq!(w.state, WorkerState::Closed);
    assert!(w.is_terminal());
}

#[test]
fn trailing_messages_push_the_deadline_back() {
    let mut w = streaming(500, 0);
    w.step(WorkerEvent::Shutdown, 100);
    w.step(WorkerEvent::Text(10, Some(ProtocolEvent::UtteranceEnd)), 400);
    assert_eq!(w.step(WorkerEvent::Tick, 600), WorkerAction::Nothing);
    assert_eq!(w.step(WorkerEvent::Tick, 900), WorkerAction::CloseSession);
    assert_eq!(w.stats.utterance_end_count, 1);
    assert_eq!(w.stats.bytes_received, 10);
}

#[test]
fn send_path_counts_frames_and_lag_separately() {
    let mut w = streaming(500, 0);
    assert_eq!(w.step(WorkerEvent::Frame(3200), 1), WorkerAction::Forward);
    assert_eq!(w.step(WorkerEvent::Lagged(4), 2), WorkerAction::Nothing);
    assert_eq!(w.step(WorkerEvent::Frame(100), 3), WorkerAction::Forward);
    assert_eq!(w.stats.bytes_sent, 3300);
    assert_eq!(w.stats.frames_lagged, 4);
}

#[test]
fn receive_path_classifies_messages() {
    let mut w = streaming(500, 0);
    w.step(WorkerEvent::Text(5, Some(ProtocolEvent::SpeechStarted)), 1);
    w.step(WorkerEvent::Text(6, Some(ProtocolEvent::Other)), 2);
    w.step(WorkerEvent::Text(7, None), 3);
    w.step(WorkerEvent::Binary(8), 4);
    assert_eq!(w.stats.bytes_received, 26);
    assert_eq!(w.stats.speech_started_count, 1);
    assert_eq!(w.stats.other_count, 1);
    assert_eq!(w.last_activity_ms, 4);
}

#[test]
fn draining_stops_forwarding() {
    let mut w = streaming(500, 0);
    w.step(WorkerEvent::Shutdown, 1);
    assert_eq!(w.step(WorkerEvent::Frame(100), 2), WorkerAction::Nothing);
    assert_eq!(w.stats.bytes_sent, 0);
}

#[test]
fn failures_are_terminal_for_this_worker() {
    let mut w = Worker::new(3, 500);
    assert_eq!(w.step(WorkerEvent::ConnectFailed, 0), WorkerAction::Finish);
    assert_eq!(w.state, WorkerState::Failed(FailReason::Connect));
    assert_eq!(w.step(WorkerEvent::Connected, 1), WorkerAction::Nothing);
    assert_eq!(w.state, WorkerState::Failed(FailReason::Connect));

    let mut w = streaming(500, 0);
    assert_eq!(w.step(WorkerEvent::SendFailed, 1), WorkerAction::CloseSession);
    assert_eq!(w.state, WorkerState::Failed(FailReason::Send));

    let mut w = streaming(500, 0);
    w.step(WorkerEvent::SourceEnded, 1);
    assert_eq!(w.step(WorkerEvent::RecvFailed, 2), WorkerAction::CloseSession);
    assert_eq!(w.state, WorkerState::Failed(FailReason::Receive));
}

#[test]
fn peer_close_while_draining_closes() {
    let mut w = streaming(10_000, 0);
    w.step(WorkerEvent::SourceEnded, 1);
    assert_eq!(w.step(WorkerEvent::PeerClosed, 2), WorkerAction::CloseSession);
    assert_eq!(w.state, WorkerState::Closed);
}
