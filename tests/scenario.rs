use flux_turn_taking::coordinator::{Coordinator, HarnessAction, HarnessEvent, HarnessPhase};
use flux_turn_taking::fanout::{FanoutChannel, RecvOutcome};
use flux_turn_taking::source::{chunk_duration_ms, pcm16_le_bytes, split_into_chunks, FILE_CHUNK_BYTES};
use flux_turn_taking::stats::StatsTable;
use flux_turn_taking::worker::{Worker, WorkerAction, WorkerEvent, WorkerState};

#[test]
fn chunks_cover_the_source() {
    let data: Vec<u8> = (0..100u32).map(|i| i as u8).collect();
    let chunks = split_into_chunks(&data, 32);
    assert_eq!(chunks.len(), 4);
    assert_eq!(chunks[3].len(), 4);
    assert_eq!(chunks.concat(), data);
    assert!(split_into_chunks(&Vec::new(), 8).is_empty());
    assert_eq!(split_into_chunks(&data, 100).len(), 1);
}

#[test]
fn chunk_durations_follow_the_sample_rate() {
    assert_eq!(chunk_duration_ms(32_768, 16_000, 1), 1_024);
    assert_eq!(chunk_duration_ms(64_000, 16_000, 1), 2_000);
    assert_eq!(chunk_duration_ms(64_000, 16_000, 2), 1_000);
    assert_eq!(chunk_duration_ms(u64::MAX, 1, 1), u64::MAX);
}

/// Three workers, a two-second 16 kHz mono source, a 500 ms inactivity timeout.
#[test]
fn three_workers_stream_a_two_second_file() {
    let n = 3usize;
    let timeout = 500u64;
    let data = vec![0u8; 64_000];
    let chunks = split_into_chunks(&data, FILE_CHUNK_BYTES);
    let mut ch = FanoutChannel::new(1000);
    let mut table = StatsTable::with_workers(n);
    let mut coord = Coordinator::new(n, 2_000);
    let mut workers: Vec<(Worker, usize)> = (0..n)
        .map(|id| {
            let mut w = Worker::new(id, timeout);
            w.step(WorkerEvent::Connected, 0);
            (w, ch.subscribe())
        })
        .collect();

    let mut now = 0u64;
    for chunk in chunks {
        let len = chunk.len() as u64;
        assert!(ch.publish(chunk));
        for (w, cur) in workers.iter_mut() {
            match ch.recv(*cur) {
                RecvOutcome::Frame(f) => {
                    assert_eq!(w.step(WorkerEvent::Frame(f.len() as u64), now), WorkerAction::Forward)
                }
                other => panic!("unexpected {:?}", other),
            }
        }
        now += chunk_duration_ms(len, 16_000, 1);
    }
    assert_eq!(now, 2_000);

    assert_eq!(coord.step(HarnessEvent::Trigger, now), HarnessAction::CloseProducer);
    ch.close();
    for (w, cur) in workers.iter_mut() {
        assert!(matches!(ch.recv(*cur), RecvOutcome::Closed));
        assert_eq!(w.step(WorkerEvent::SourceEnded, now), WorkerAction::SendCloseStream);
    }
    let closed_at = now + timeout;
    let mut action = HarnessAction::Nothing;
    for (id, (w, _)) in workers.iter_mut().enumerate() {
        assert_eq!(w.step(WorkerEvent::Tick, closed_at), WorkerAction::CloseSession);
        assert_eq!(w.state, WorkerState::Closed);
        assert!(table.store(w.stats));
        action = coord.step(HarnessEvent::WorkerFinished(id), closed_at);
    }
    assert_eq!(action, HarnessAction::ExitJoined);
    assert_eq!(coord.phase(), HarnessPhase::Joined);
    assert!(closed_at <= 2_000 + 500 + 2_000);

    let snap = table.snapshot();
    assert_eq!(snap.len(), 3);
    for s in snap {
        assert_eq!(s.bytes_sent, 64_000);
        assert_eq!(s.frames_lagged, 0);
    }
}

#[test]
fn samples_become_little_endian_bytes() {
    let bytes = pcm16_le_bytes(&vec![1i16, -2, 0x1234, i16::MIN]);
    assert_eq!(bytes, vec![0x01, 0x00, 0xFE, 0xFF, 0x34, 0x12, 0x00, 0x80]);
    assert!(pcm16_le_bytes(&Vec::new()).is_empty());
}
