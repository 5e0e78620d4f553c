use flux_turn_taking::fanout::{FanoutChannel, RecvOutcome};

fn frame(i: u8) -> Vec<u8> {
    vec![i, i, i]
}

#[test]
fn subscribers_see_frames_in_order() {
    let mut ch = FanoutChannel::new(8);
    let a = ch.subscribe();
    let b = ch.subscribe();
    for i in 0..3u8 {
        assert!(ch.publish(frame(i)));
    }
    for c in [a, b] {
        for i in 0..3u8 {
            match ch.recv(c) {
                RecvOutcome::Frame(f) => assert_eq!(f, frame(i)),
                other => panic!("unexpected {:?}", other),
            }
        }
        assert!(matches!(ch.recv(c), RecvOutcome::Empty));
    }
}

#[test]
fn late_subscriber_misses_earlier_frames() {
    let mut ch = FanoutChannel::new(4);
    let a = ch.subscribe();
    ch.publish(frame(1));
    let b = ch.subscribe();
    ch.publish(frame(2));
    assert!(matches!(ch.recv(a), RecvOutcome::Frame(ref f) if *f == frame(1)));
    assert!(matches!(ch.recv(b), RecvOutcome::Frame(ref f) if *f == frame(2)));
}

#[test]
fn idle_subscriber_reports_lag_and_others_are_unaffected() {
    let capacity = 4usize;
    let mut ch = FanoutChannel::new(capacity);
    let busy1 = ch.subscribe();
    let busy2 = ch.subscribe();
    let idle = ch.subscribe();
    let k = 10u8;
    for i in 0..k {
        assert!(ch.publish(frame(i)));
        for c in [busy1, busy2] {
            match ch.recv(c) {
                RecvOutcome::Frame(f) => assert_eq!(f, frame(i)),
                other => panic!("unexpected {:?}", other),
            }
        }
    }
    match ch.recv(idle) {
        RecvOutcome::Lagged(n) => assert_eq!(n, (k as u64) - capacity as u64),
        other => panic!("unexpected {:?}", other),
    }
    for i in (k - capacity as u8)..k {
        match ch.recv(idle) {
            RecvOutcome::Frame(f) => assert_eq!(f, frame(i)),
            other => panic!("unexpected {:?}", other),
        }
    }
    assert!(matches!(ch.recv(idle), RecvOutcome::Empty));
}

#[test]
fn publish_without_subscribers_is_a_no_op() {
    let mut ch = FanoutChannel::new(2);
    assert!(!ch.publish(frame(0)));
    let a = ch.subscribe();
    ch.unsubscribe(a);
    assert!(!ch.has_subscribers());
    assert!(!ch.publish(frame(1)));
}

#[test]
fn close_drains_then_ends() {
    let mut ch = FanoutChannel::new(2);
    let a = ch.subscribe();
    ch.publish(frame(5));
    ch.close();
    assert!(ch.is_closed());
    assert!(!ch.publish(frame(6)));
    assert!(matches!(ch.recv(a), RecvOutcome::Frame(ref f) if *f == frame(5)));
    assert!(matches!(ch.recv(a), RecvOutcome::Closed));
    assert!(matches!(ch.recv(a), RecvOutcome::Closed));
}
