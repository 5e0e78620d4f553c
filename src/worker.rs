//! The decisions of one simulated connection. The caller owns the session and
//! the clock: it reports what happened as a [`WorkerEvent`] with the current
//! time, performs the [`WorkerAction`] it gets back, and stops once the worker
//! is terminal.
use vstd::prelude::*;
use crate::event::ProtocolEvent;
use crate::stats::{ConnectionStats, fresh_stats, stats_le, count_event};
use crate::source::{chunks_of, total_len, lemma_chunks_cover};

verus! {

/// Why a worker failed.
#[derive(Clone, Copy, Debug, PartialEq, Eq, Structural)]
pub enum FailReason {
    Connect,
    Send,
    Receive,
}

/// The lifecycle of one connection.
#[derive(Clone, Copy, Debug, PartialEq, Eq, Structural)]
pub enum WorkerState {
    Connecting,
    Streaming,
    Draining,
    Closed,
    Failed(FailReason),
}

/// Something that happened to a worker's session or cursor.
#[derive(Clone, Copy, Debug, PartialEq, Eq, Structural)]
pub enum WorkerEvent {
    /// The session is open.
    Connected,
    /// The session could not be opened.
    ConnectFailed,
    /// The cursor yielded a frame of this many bytes.
    Frame(u64),
    /// The cursor skipped this many frames.
    Lagged(u64),
    /// The cursor reached end-of-stream.
    SourceEnded,
    /// The harness asked every worker to wind down.
    Shutdown,
    /// Writing to the session failed.
    SendFailed,
    /// A text message of this many bytes arrived; its kind, when it decoded.
    Text(u64, Option<ProtocolEvent>),
    /// A binary message of this many bytes arrived.
    Binary(u64),
    /// The peer closed the session, or its stream ended.
    PeerClosed,
    /// Reading from the session failed.
    RecvFailed,
    /// Time passed with nothing else to report.
    Tick,
}

/// What the caller does next.
#[derive(Clone, Copy, Debug, PartialEq, Eq, Structural)]
pub enum WorkerAction {
    Nothing,
    /// Send the frame just read as a binary message.
    Forward,
    /// Send the end-of-input control message.
    SendCloseStream,
    /// Close the session; the worker is terminal.
    CloseSession,
    /// Stop without a session; the worker is terminal.
    Finish,
}

/// One connection's state, its timer and its own counters.
#[derive(Clone, Copy, Debug, PartialEq, Eq, Structural)]
pub struct Worker {
    pub state: WorkerState,
    /// The receive path has finished: the peer went quiet or closed.
    pub receive_done: bool,
    /// When the receive path last made progress, in milliseconds.
    pub last_activity_ms: u64,
    /// How long the receive path waits for a message before it finishes.
    pub timeout_ms: u64,
    pub stats: ConnectionStats,
}

/// When a quiet receive path gives up: the last activity plus the timeout.
pub open spec fn deadline(w: Worker) -> u64 {
    w.last_activity_ms.saturating_add(w.timeout_ms)
}

pub open spec fn is_terminal(s: WorkerState) -> bool {
    s is Closed || s is Failed
}

/// The effect of a receive-path event (or a tick) on the counters and timer.
pub open spec fn receive_model(w: Worker, ev: WorkerEvent, now: u64) -> Worker {
    match ev {
        WorkerEvent::Text(n, k) => {
            let s = ConnectionStats {
                bytes_received: w.stats.bytes_received.saturating_add(n),
                ..w.stats
            };
            Worker {
                stats: match k {
                    Some(k) => count_event(s, k),
                    None => s,
                },
                last_activity_ms: now,
                ..w
            }
        },
        WorkerEvent::Binary(n) => Worker {
            stats: ConnectionStats {
                bytes_received: w.stats.bytes_received.saturating_add(n),
                ..w.stats
            },
            last_activity_ms: now,
            ..w
        },
        WorkerEvent::PeerClosed => Worker { receive_done: true, ..w },
        WorkerEvent::Tick => if now >= deadline(w) {
            Worker { receive_done: true, ..w }
        } else {
            w
        },
        _ => w,
    }
}

/// One decision of a worker, given an event at time `now`.
pub open spec fn worker_model(w: Worker, ev: WorkerEvent, now: u64) -> (Worker, WorkerAction) {
    match w.state {
        WorkerState::Connecting => match ev {
            WorkerEvent::Connected => (
                Worker { state: WorkerState::Streaming, last_activity_ms: now, ..w },
                WorkerAction::Nothing,
            ),
            WorkerEvent::ConnectFailed => (
                Worker { state: WorkerState::Failed(FailReason::Connect), ..w },
                WorkerAction::Finish,
            ),
            _ => (w, WorkerAction::Nothing),
        },
        WorkerState::Streaming => match ev {
            WorkerEvent::Frame(n) => (
                Worker {
                    stats: ConnectionStats { bytes_sent: w.stats.bytes_sent.saturating_add(n), ..w.stats },
                    ..w
                },
                WorkerAction::Forward,
            ),
            WorkerEvent::Lagged(n) => (
                Worker {
                    stats: ConnectionStats {
                        frames_lagged: w.stats.frames_lagged.saturating_add(n),
                        ..w.stats
                    },
                    ..w
                },
                WorkerAction::Nothing,
            ),
            WorkerEvent::SourceEnded | WorkerEvent::Shutdown => (
                Worker { state: WorkerState::Draining, ..w },
                WorkerAction::SendCloseStream,
            ),
            WorkerEvent::SendFailed => (
                Worker { state: WorkerState::Failed(FailReason::Send), ..w },
                WorkerAction::CloseSession,
            ),
            WorkerEvent::RecvFailed => (
                Worker { state: WorkerState::Failed(FailReason::Receive), ..w },
                WorkerAction::CloseSession,
            ),
            _ => (receive_model(w, ev, now), WorkerAction::Nothing),
        },
        WorkerState::Draining => match ev {
            WorkerEvent::SendFailed => (
                Worker { state: WorkerState::Failed(FailReason::Send), ..w },
                WorkerAction::CloseSession,
            ),
            WorkerEvent::RecvFailed => (
                Worker { state: WorkerState::Failed(FailReason::Receive), ..w },
                WorkerAction::CloseSession,
            ),
            _ => {
                let w2 = receive_model(w, ev, now);
                if w2.receive_done {
                    (Worker { state: WorkerState::Closed, ..w2 }, WorkerAction::CloseSession)
                } else {
                    (w2, WorkerAction::Nothing)
                }
            },
        },
        _ => (w, WorkerAction::Nothing),
    }
}

impl Worker {
    /// A worker for `id` that has not connected yet.
    pub fn new(id: usize, timeout_ms: u64) -> (r: Worker)
        ensures
            r == (Worker {
                state: WorkerState::Connecting,
                receive_done: false,
                last_activity_ms: 0,
                timeout_ms,
                stats: fresh_stats(id),
            }),
    {
        Worker {
            state: WorkerState::Connecting,
            receive_done: false,
            last_activity_ms: 0,
            timeout_ms,
            stats: ConnectionStats::new(id),
        }
    }

    /// When a quiet receive path gives up.
    pub fn deadline(&self) -> (r: u64)
        ensures
            r == deadline(*self),
    {
        self.last_activity_ms.saturating_add(self.timeout_ms)
    }

    /// Whether the worker has reached `Closed` or `Failed`.
    pub fn is_terminal(&self) -> (r: bool)
        ensures
            r == is_terminal(self.state),
    {
        match self.state {
            WorkerState::Closed | WorkerState::Failed(_) => true,
            _ => false,
        }
    }

    fn on_receive(&mut self, ev: WorkerEvent, now: u64)
        ensures
            *final(self) == receive_model(*old(self), ev, now),
    {
        match ev {
            WorkerEvent::Text(n, k) => {
                self.stats.add_received(n);
                if let Some(k) = k {
                    self.stats.count(k);
                }
                self.last_activity_ms = now;
            },
            WorkerEvent::Binary(n) => {
                self.stats.add_received(n);
                self.last_activity_ms = now;
            },
            WorkerEvent::PeerClosed => {
                self.receive_done = true;
            },
            WorkerEvent::Tick => {
                if now >= self.deadline() {
                    self.receive_done = true;
                }
            },
            _ => {},
        }
    }

    /// Applies one event at time `now` and says what to do next. Counters never
    /// decrease, and a terminal worker ignores every event.
    pub fn step(&mut self, ev: WorkerEvent, now: u64) -> (r: WorkerAction)
        ensures
            (*final(self), r) == worker_model(*old(self), ev, now),
            stats_le(old(self).stats, final(self).stats),
    {
        match self.state {
            WorkerState::Connecting => match ev {
                WorkerEvent::Connected => {
                    self.state = WorkerState::Streaming;
                    self.last_activity_ms = now;
                    WorkerAction::Nothing
                },
                WorkerEvent::ConnectFailed => {
                    self.state = WorkerState::Failed(FailReason::Connect);
                    WorkerAction::Finish
                },
                _ => WorkerAction::Nothing,
            },
            WorkerState::Streaming => match ev {
                WorkerEvent::Frame(n) => {
                    self.stats.add_sent(n);
                    WorkerAction::Forward
                },
                WorkerEvent::Lagged(n) => {
                    self.stats.add_lag(n);
                    WorkerAction::Nothing
                },
                WorkerEvent::SourceEnded | WorkerEvent::Shutdown => {
                    self.state = WorkerState::Draining;
                    WorkerAction::SendCloseStream
                },
                WorkerEvent::SendFailed => {
                    self.state = WorkerState::Failed(FailReason::Send);
                    WorkerAction::CloseSession
                },
                WorkerEvent::RecvFailed => {
                    self.state = WorkerState::Failed(FailReason::Receive);
                    WorkerAction::CloseSession
                },
                _ => {
                    self.on_receive(ev, now);
                    WorkerAction::Nothing
                },
            },
            WorkerState::Draining => match ev {
                WorkerEvent::SendFailed => {
                    self.state = WorkerState::Failed(FailReason::Send);
                    WorkerAction::CloseSession
                },
                WorkerEvent::RecvFailed => {
                    self.state = WorkerState::Failed(FailReason::Receive);
                    WorkerAction::CloseSession
                },
                _ => {
                    self.on_receive(ev, now);
                    if self.receive_done {
                        self.state = WorkerState::Closed;
                        WorkerAction::CloseSession
                    } else {
                        WorkerAction::Nothing
                    }
                },
            },
            _ => WorkerAction::Nothing,
        }
    }
}

/// A draining worker whose peer has said nothing since its last message
/// reaches `Closed` at the first tick at or after that message plus the
/// inactivity timeout, and that instant is no later than the two added up.
pub proof fn lemma_quiet_peer_closes_by_deadline(w: Worker, now: u64)
    requires
        w.state is Draining,
        now >= deadline(w),
    ensures
        worker_model(w, WorkerEvent::Tick, now).0.state is Closed,
        worker_model(w, WorkerEvent::Tick, now).1 is CloseSession,
        deadline(w) <= w.last_activity_ms + w.timeout_ms,
{
}

/// The worker after each timed event of `evs` in order.
pub open spec fn run_model(w: Worker, evs: Seq<(WorkerEvent, u64)>) -> Worker
    decreases evs.len(),
{
    if evs.len() == 0 {
        w
    } else {
        run_model(worker_model(w, evs[0].0, evs[0].1).0, evs.drop_first())
    }
}

/// Over any run, no counter of a worker ever decreases.
pub proof fn lemma_counters_never_decrease(w: Worker, evs: Seq<(WorkerEvent, u64)>)
    ensures
        stats_le(w.stats, run_model(w, evs).stats),
    decreases evs.len(),
{
    if evs.len() > 0 {
        let w1 = worker_model(w, evs[0].0, evs[0].1).0;
        lemma_step_monotone(w, evs[0].0, evs[0].1);
        lemma_counters_never_decrease(w1, evs.drop_first());
    }
}

proof fn lemma_step_monotone(w: Worker, ev: WorkerEvent, now: u64)
    ensures
        stats_le(w.stats, worker_model(w, ev, now).0.stats),
{
}

/// The cursor results of a send path, as events: a frame or a lag report.
pub open spec fn is_delivery(ev: WorkerEvent) -> bool {
    ev is Frame || ev is Lagged
}

/// The bytes of the frames among `evs`.
pub open spec fn sent_total(evs: Seq<(WorkerEvent, u64)>) -> nat
    decreases evs.len(),
{
    if evs.len() == 0 {
        0
    } else {
        (match evs[0].0 {
            WorkerEvent::Frame(n) => n as nat,
            _ => 0,
        }) + sent_total(evs.drop_first())
    }
}

/// The frames reported skipped among `evs`.
pub open spec fn lag_total(evs: Seq<(WorkerEvent, u64)>) -> nat
    decreases evs.len(),
{
    if evs.len() == 0 {
        0
    } else {
        (match evs[0].0 {
            WorkerEvent::Lagged(n) => n as nat,
            _ => 0,
        }) + lag_total(evs.drop_first())
    }
}

/// While streaming, a worker's sent bytes grow by exactly the lengths of the
/// frames its cursor yields, and skipped frames are counted as lag and never
/// as sent bytes.
pub proof fn lemma_send_path_accounting(w: Worker, evs: Seq<(WorkerEvent, u64)>)
    requires
        w.state is Streaming,
        forall|i: int| 0 <= i < evs.len() ==> is_delivery(#[trigger] evs[i].0),
        w.stats.bytes_sent + sent_total(evs) <= u64::MAX,
        w.stats.frames_lagged + lag_total(evs) <= u64::MAX,
    ensures
        run_model(w, evs).state is Streaming,
        run_model(w, evs).stats.bytes_sent == w.stats.bytes_sent + sent_total(evs),
        run_model(w, evs).stats.frames_lagged == w.stats.frames_lagged + lag_total(evs),
    decreases evs.len(),
{
    if evs.len() > 0 {
        let w1 = worker_model(w, evs[0].0, evs[0].1).0;
        let rest = evs.drop_first();
        assert(is_delivery(evs[0].0));
        assert forall|i: int| 0 <= i < rest.len() implies is_delivery(#[trigger] rest[i].0) by {
            assert(rest[i] == evs[i + 1]);
        }
        lemma_send_path_accounting(w1, rest);
    }
}

/// Each frame of `fs` as a frame event, all at time `t`.
pub open spec fn frame_events(fs: Seq<Seq<u8>>, t: u64) -> Seq<(WorkerEvent, u64)> {
    Seq::new(fs.len(), |i: int| (WorkerEvent::Frame(fs[i].len() as u64), t))
}

proof fn lemma_frame_events_totals(fs: Seq<Seq<u8>>, t: u64)
    requires
        forall|i: int| 0 <= i < fs.len() ==> (#[trigger] fs[i]).len() <= u64::MAX,
    ensures
        sent_total(frame_events(fs, t)) == total_len(fs),
        lag_total(frame_events(fs, t)) == 0,
    decreases fs.len(),
{
    if fs.len() > 0 {
        let rest = fs.drop_first();
        assert(frame_events(fs, t).drop_first() =~= frame_events(rest, t));
        assert forall|i: int| 0 <= i < rest.len() implies (#[trigger] rest[i]).len() <= u64::MAX by {
            assert(rest[i] == fs[i + 1]);
        }
        lemma_frame_events_totals(rest, t);
    }
}

/// A streaming worker that starts from zero and receives every chunk of a
/// finite source, with no lag, ends with `bytes_sent` equal to the source's
/// total length and nothing counted as lag.
pub proof fn lemma_every_byte_sent_once(w: Worker, data: Seq<u8>, size: nat, t: u64)
    requires
        w.state is Streaming,
        w.stats.bytes_sent == 0,
        w.stats.frames_lagged == 0,
        size >= 1,
        data.len() <= u64::MAX,
    ensures
        run_model(w, frame_events(chunks_of(data, size), t)).stats.bytes_sent == data.len(),
        run_model(w, frame_events(chunks_of(data, size), t)).stats.frames_lagged == 0,
{
    let cs = chunks_of(data, size);
    lemma_chunks_cover(data, size);
    assert forall|i: int| 0 <= i < cs.len() implies (#[trigger] cs[i]).len() <= u64::MAX by {
        assert(cs[i].len() <= size);
        assert(cs.flatten() == data);
        cs.lemma_flatten_length_ge_single_element_length(i);
        cs.lemma_flatten_and_flatten_alt_are_equivalent();
    }
    lemma_frame_events_totals(cs, t);
    let evs = frame_events(cs, t);
    assert forall|i: int| 0 <= i < evs.len() implies is_delivery(#[trigger] evs[i].0) by {}
    lemma_send_path_accounting(w, evs);
}

} // verus!
