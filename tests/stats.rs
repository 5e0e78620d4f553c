use flux_turn_taking::event::ProtocolEvent;
use flux_turn_taking::stats::{ConnectionStats, StatsTable};

#[test]
fn table_for_n_workers_has_n_ordered_entries() {
    let t = StatsTable::with_workers(3);
    let snap = t.snapshot();
    assert_eq!(snap.len(), 3);
    for (i, s) in snap.iter().enumerate() {
        assert_eq!(*s, ConnectionStats::new(i));
    }
}

#[test]
fn get_or_create_keeps_ids_sorted() {
    let mut t = StatsTable::new();
    assert_eq!(t.get_or_create(5), 0);
    assert_eq!(t.get_or_create(2), 0);
    assert_eq!(t.get_or_create(9), 2);
    assert_eq!(t.get_or_create(5), 1);
    let ids: Vec<usize> = t.snapshot().iter().map(|s| s.worker_id).collect();
    assert_eq!(ids, vec![2, 5, 9]);
    assert_eq!(t.find(7), None);
    assert_eq!(t.find(9), Some(2));
}

#[test]
fn updates_touch_only_their_worker() {
    let mut t = StatsTable::with_workers(2);
    t.record_sent(1, 100);
    t.record_received(1, 30);
    t.record_event(1, ProtocolEvent::Metadata);
    t.record_event(1, ProtocolEvent::Other);
    t.record_lag(0, 3);
    t.record_sent(7, 50);
    let snap = t.snapshot();
    assert_eq!(snap[0].bytes_sent, 0);
    assert_eq!(snap[0].frames_lagged, 3);
    assert_eq!(snap[1].bytes_sent, 100);
    assert_eq!(snap[1].bytes_received, 30);
    assert_eq!(snap[1].metadata_count, 1);
    assert_eq!(snap[1].other_count, 1);
    assert_eq!(snap[1].results_count, 0);
    assert_eq!(snap.len(), 2);
}

#[test]
fn store_never_lowers_a_counter() {
    let mut t = StatsTable::with_workers(2);
    let mut s = ConnectionStats::new(1);
    s.add_sent(10);
    assert!(t.store(s));
    assert_eq!(t.snapshot()[1].bytes_sent, 10);
    let lower = ConnectionStats::new(1);
    assert!(!t.store(lower));
    assert_eq!(t.snapshot()[1].bytes_sent, 10);
    assert!(!t.store(ConnectionStats::new(4)));
    assert_eq!(t.len(), 2);
}

#[test]
fn counters_saturate_instead_of_wrapping() {
    let mut s = ConnectionStats::new(0);
    s.add_sent(u64::MAX - 1);
    s.add_sent(5);
    assert_eq!(s.bytes_sent, u64::MAX);
    s.count(ProtocolEvent::Results);
    s.count(ProtocolEvent::SpeechStarted);
    s.count(ProtocolEvent::UtteranceEnd);
    assert_eq!(s.results_count, 1);
    assert_eq!(s.speech_started_count, 1);
    assert_eq!(s.utterance_end_count, 1);
}
