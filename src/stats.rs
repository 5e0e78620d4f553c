//! Per-connection traffic and event counters, and the table that holds one
//! record per worker, kept ordered by worker id.
use vstd::prelude::*;
use crate::event::ProtocolEvent;

verus! {

/// Counters of one simulated connection.
#[derive(Clone, Copy, Debug, PartialEq, Eq, Structural)]
pub struct ConnectionStats {
    pub worker_id: usize,
    pub bytes_sent: u64,
    pub bytes_received: u64,
    pub results_count: u64,
    pub speech_started_count: u64,
    pub utterance_end_count: u64,
    pub metadata_count: u64,
    pub other_count: u64,
    /// Frames this connection's cursor skipped because it fell behind.
    pub frames_lagged: u64,
}

/// A record with every counter at zero.
pub open spec fn fresh_stats(id: usize) -> ConnectionStats {
    ConnectionStats {
        worker_id: id,
        bytes_sent: 0,
        bytes_received: 0,
        results_count: 0,
        speech_started_count: 0,
        utterance_end_count: 0,
        metadata_count: 0,
        other_count: 0,
        frames_lagged: 0,
    }
}

/// `b` belongs to the same worker as `a` and no counter of `b` is below `a`'s.
pub open spec fn stats_le(a: ConnectionStats, b: ConnectionStats) -> bool {
    &&& a.worker_id == b.worker_id
    &&& a.bytes_sent <= b.bytes_sent
    &&& a.bytes_received <= b.bytes_received
    &&& a.results_count <= b.results_count
    &&& a.speech_started_count <= b.speech_started_count
    &&& a.utterance_end_count <= b.utterance_end_count
    &&& a.metadata_count <= b.metadata_count
    &&& a.other_count <= b.other_count
    &&& a.frames_lagged <= b.frames_lagged
}

/// `s` after one message of kind `k`: exactly the matching counter grows.
pub open spec fn count_event(s: ConnectionStats, k: ProtocolEvent) -> ConnectionStats {
    match k {
        ProtocolEvent::Results => ConnectionStats {
            results_count: s.results_count.saturating_add(1),
            ..s
        },
        ProtocolEvent::SpeechStarted => ConnectionStats {
            speech_started_count: s.speech_started_count.saturating_add(1),
            ..s
        },
        ProtocolEvent::UtteranceEnd => ConnectionStats {
            utterance_end_count: s.utterance_end_count.saturating_add(1),
            ..s
        },
        ProtocolEvent::Metadata => ConnectionStats {
            metadata_count: s.metadata_count.saturating_add(1),
            ..s
        },
        ProtocolEvent::Other => ConnectionStats {
            other_count: s.other_count.saturating_add(1),
            ..s
        },
    }
}

/// The counter that messages of kind `k` increment.
pub open spec fn kind_count(s: ConnectionStats, k: ProtocolEvent) -> u64 {
    match k {
        ProtocolEvent::Results => s.results_count,
        ProtocolEvent::SpeechStarted => s.speech_started_count,
        ProtocolEvent::UtteranceEnd => s.utterance_end_count,
        ProtocolEvent::Metadata => s.metadata_count,
        ProtocolEvent::Other => s.other_count,
    }
}

/// The total of the per-kind event counters.
pub open spec fn event_total(s: ConnectionStats) -> int {
    s.results_count + s.speech_started_count + s.utterance_end_count + s.metadata_count
        + s.other_count
}

impl ConnectionStats {
    /// A record for `worker_id` with every counter at zero.
    pub fn new(worker_id: usize) -> (r: ConnectionStats)
        ensures
            r == fresh_stats(worker_id),
    {
        ConnectionStats {
            worker_id,
            bytes_sent: 0,
            bytes_received: 0,
            results_count: 0,
            speech_started_count: 0,
            utterance_end_count: 0,
            metadata_count: 0,
            other_count: 0,
            frames_lagged: 0,
        }
    }

    /// Adds a forwarded frame's length to `bytes_sent` (saturating).
    pub fn add_sent(&mut self, n: u64)
        ensures
            *final(self) == (ConnectionStats {
                bytes_sent: old(self).bytes_sent.saturating_add(n),
                ..*old(self)
            }),
            stats_le(*old(self), *final(self)),
    {
        self.bytes_sent = self.bytes_sent.saturating_add(n);
    }

    /// Adds an inbound message's length to `bytes_received` (saturating).
    pub fn add_received(&mut self, n: u64)
        ensures
            *final(self) == (ConnectionStats {
                bytes_received: old(self).bytes_received.saturating_add(n),
                ..*old(self)
            }),
            stats_le(*old(self), *final(self)),
    {
        self.bytes_received = self.bytes_received.saturating_add(n);
    }

    /// Adds a number of skipped frames to `frames_lagged` (saturating).
    pub fn add_lag(&mut self, n: u64)
        ensures
            *final(self) == (ConnectionStats {
                frames_lagged: old(self).frames_lagged.saturating_add(n),
                ..*old(self)
            }),
            stats_le(*old(self), *final(self)),
    {
        self.frames_lagged = self.frames_lagged.saturating_add(n);
    }

    /// Counts one message of kind `k`: exactly the matching counter grows.
    pub fn count(&mut self, k: ProtocolEvent)
        ensures
            *final(self) == count_event(*old(self), k),
            stats_le(*old(self), *final(self)),
            kind_count(*old(self), k) < u64::MAX ==> event_total(*final(self)) == event_total(
                *old(self),
            ) + 1,
    {
        match k {
            ProtocolEvent::Results => {
                self.results_count = self.results_count.saturating_add(1);
            },
            ProtocolEvent::SpeechStarted => {
                self.speech_started_count = self.speech_started_count.saturating_add(1);
            },
            ProtocolEvent::UtteranceEnd => {
                self.utterance_end_count = self.utterance_end_count.saturating_add(1);
            },
            ProtocolEvent::Metadata => {
                self.metadata_count = self.metadata_count.saturating_add(1);
            },
            ProtocolEvent::Other => {
                self.other_count = self.other_count.saturating_add(1);
            },
        }
    }
}

/// Worker ids strictly increase along `s`.
pub open spec fn ids_sorted(s: Seq<ConnectionStats>) -> bool {
    forall|i: int, j: int| 0 <= i < j < s.len() ==> s[i].worker_id < s[j].worker_id
}

/// Whether `s` holds a record of worker `id`.
pub open spec fn has_id(s: Seq<ConnectionStats>, id: usize) -> bool {
    exists|i: int| 0 <= i < s.len() && s[i].worker_id == id
}

/// The shared table of per-worker records, one per worker id, ordered by id.
pub struct StatsTable {
    entries: Vec<ConnectionStats>,
}

impl StatsTable {
    /// The records, ordered by worker id.
    pub closed spec fn view(&self) -> Seq<ConnectionStats> {
        self.entries@
    }

    pub closed spec fn wf(&self) -> bool {
        ids_sorted(self.entries@)
    }

    /// An empty table.
    pub fn new() -> (r: StatsTable)
        ensures
            r.wf(),
            r@ == Seq::<ConnectionStats>::empty(),
    {
        StatsTable { entries: Vec::new() }
    }

    /// A table with one zeroed record for each worker id `0..n`.
    pub fn with_workers(n: usize) -> (r: StatsTable)
        ensures
            r.wf(),
            r@.len() == n,
            forall|i: int| 0 <= i < n ==> #[trigger] r@[i] == fresh_stats(i as usize),
    {
        let mut entries: Vec<ConnectionStats> = Vec::new();
        let mut i: usize = 0;
        while i < n
            invariant
                i <= n,
                entries@.len() == i,
                forall|j: int| 0 <= j < i ==> #[trigger] entries@[j] == fresh_stats(j as usize),
            decreases n - i,
        {
            entries.push(ConnectionStats::new(i));
            i = i + 1;
        }
        StatsTable { entries }
    }

    /// The number of records.
    pub fn len(&self) -> (r: usize)
        ensures
            r == self@.len(),
    {
        self.entries.len()
    }

    /// The position of worker `id`'s record, if the table holds one.
    pub fn find(&self, id: usize) -> (r: Option<usize>)
        requires
            self.wf(),
        ensures
            r is Some <==> has_id(self@, id),
            r matches Some(i) ==> i < self@.len() && self@[i as int].worker_id == id,
    {
        let mut i: usize = 0;
        while i < self.entries.len()
            invariant
                i <= self.entries@.len(),
                forall|j: int| 0 <= j < i ==> self.entries@[j].worker_id != id,
            decreases self.entries@.len() - i,
        {
            if self.entries[i].worker_id == id {
                return Some(i);
            }
            i = i + 1;
        }
        None
    }

    /// The position of worker `id`'s record; a zeroed record is inserted in
    /// id order when the table holds none.
    pub fn get_or_create(&mut self, id: usize) -> (r: usize)
        requires
            old(self).wf(),
        ensures
            final(self).wf(),
            r < final(self)@.len(),
            final(self)@[r as int].worker_id == id,
            has_id(old(self)@, id) ==> final(self)@ == old(self)@,
            !has_id(old(self)@, id) ==> final(self)@ == old(self)@.insert(r as int, fresh_stats(id)),
    {
        let mut i: usize = 0;
        while i < self.entries.len() && self.entries[i].worker_id < id
            invariant
                i <= self.entries@.len(),
                ids_sorted(self.entries@),
                forall|j: int| 0 <= j < i ==> self.entries@[j].worker_id < id,
            decreases self.entries@.len() - i,
        {
            i = i + 1;
        }
        if i < self.entries.len() && self.entries[i].worker_id == id {
            return i;
        }
        proof {
            assert forall|j: int| 0 <= j < self.entries@.len() implies self.entries@[j].worker_id
                != id by {
                if j >= i {
                    assert(self.entries@[i as int].worker_id > id);
                }
            }
        }
        let ghost before = self.entries@;
        self.entries.insert(i, ConnectionStats::new(id));
        proof {
            let after = self.entries@;
            assert forall|a: int, b: int| 0 <= a < b < after.len() implies after[a].worker_id
                < after[b].worker_id by {
                if b < i {
                } else if a < i && b == i {
                } else if a < i {
                    assert(after[b] == before[b - 1]);
                    assert(before[b - 1].worker_id > id);
                } else if a == i {
                    assert(after[b] == before[b - 1]);
                    assert(before[b - 1].worker_id > id);
                } else {
                    assert(after[a] == before[a - 1]);
                    assert(after[b] == before[b - 1]);
                }
            }
        }
        i
    }

    /// Overwrites the record at position `i` with one for the same worker.
    fn update_at(&mut self, i: usize, s: ConnectionStats)
        requires
            old(self).wf(),
            i < old(self)@.len(),
            s.worker_id == old(self)@[i as int].worker_id,
        ensures
            final(self).wf(),
            final(self)@ == old(self)@.update(i as int, s),
    {
        self.entries.set(i, s);
    }

    /// Adds `n` to the sent-byte counter of worker `id`; no change without a record.
    pub fn record_sent(&mut self, id: usize, n: u64)
        requires
            old(self).wf(),
        ensures
            final(self).wf(),
            final(self)@.len() == old(self)@.len(),
            forall|j: int| 0 <= j < old(self)@.len() ==> #[trigger] final(self)@[j] == if old(
                self,
            )@[j].worker_id == id {
                ConnectionStats { bytes_sent: old(self)@[j].bytes_sent.saturating_add(n), ..old(self)@[j] }
            } else {
                old(self)@[j]
            },
            table_le(old(self)@, final(self)@),
    {
        if let Some(i) = self.find(id) {
            let mut s = self.entries[i];
            s.add_sent(n);
            self.update_at(i, s);
        }
    }

    /// Adds `n` to the received-byte counter of worker `id`; no change without a record.
    pub fn record_received(&mut self, id: usize, n: u64)
        requires
            old(self).wf(),
        ensures
            final(self).wf(),
            final(self)@.len() == old(self)@.len(),
            forall|j: int| 0 <= j < old(self)@.len() ==> #[trigger] final(self)@[j] == if old(
                self,
            )@[j].worker_id == id {
                ConnectionStats {
                    bytes_received: old(self)@[j].bytes_received.saturating_add(n),
                    ..old(self)@[j]
                }
            } else {
                old(self)@[j]
            },
            table_le(old(self)@, final(self)@),
    {
        if let Some(i) = self.find(id) {
            let mut s = self.entries[i];
            s.add_received(n);
            self.update_at(i, s);
        }
    }

    /// Adds `n` skipped frames to the lag counter of worker `id`; no change without a record.
    pub fn record_lag(&mut self, id: usize, n: u64)
        requires
            old(self).wf(),
        ensures
            final(self).wf(),
            final(self)@.len() == old(self)@.len(),
            forall|j: int| 0 <= j < old(self)@.len() ==> #[trigger] final(self)@[j] == if old(
                self,
            )@[j].worker_id == id {
                ConnectionStats {
                    frames_lagged: old(self)@[j].frames_lagged.saturating_add(n),
                    ..old(self)@[j]
                }
            } else {
                old(self)@[j]
            },
            table_le(old(self)@, final(self)@),
    {
        if let Some(i) = self.find(id) {
            let mut s = self.entries[i];
            s.add_lag(n);
            self.update_at(i, s);
        }
    }

    /// Counts one message of kind `k` for worker `id`; no change without a record.
    pub fn record_event(&mut self, id: usize, k: ProtocolEvent)
        requires
            old(self).wf(),
        ensures
            final(self).wf(),
            final(self)@.len() == old(self)@.len(),
            forall|j: int| 0 <= j < old(self)@.len() ==> #[trigger] final(self)@[j] == if old(
                self,
            )@[j].worker_id == id {
                count_event(old(self)@[j], k)
            } else {
                old(self)@[j]
            },
            table_le(old(self)@, final(self)@),
    {
        if let Some(i) = self.find(id) {
            let mut s = self.entries[i];
            s.count(k);
            self.update_at(i, s);
        }
    }

    /// Replaces worker `s.worker_id`'s record by `s` when no counter of `s` is
    /// below the stored one. Returns whether it did; the table never holds a
    /// counter lower than before.
    pub fn store(&mut self, s: ConnectionStats) -> (r: bool)
        requires
            old(self).wf(),
        ensures
            final(self).wf(),
            final(self)@ == store_model(old(self)@, s),
            r == exists|j: int|
                0 <= j < old(self)@.len() && old(self)@[j].worker_id == s.worker_id && stats_le(
                    #[trigger] old(self)@[j],
                    s,
                ),
    {
        match self.find(s.worker_id) {
            Some(i) => {
                let cur = self.entries[i];
                if cur.bytes_sent <= s.bytes_sent && cur.bytes_received <= s.bytes_received
                    && cur.results_count <= s.results_count && cur.speech_started_count
                    <= s.speech_started_count && cur.utterance_end_count <= s.utterance_end_count
                    && cur.metadata_count <= s.metadata_count && cur.other_count <= s.other_count
                    && cur.frames_lagged <= s.frames_lagged {
                    self.update_at(i, s);
                    assert(self@ =~= store_model(old(self)@, s));
                    true
                } else {
                    assert(self@ =~= store_model(old(self)@, s));
                    false
                }
            },
            None => {
                assert(self@ =~= store_model(old(self)@, s));
                false
            },
        }
    }

    /// A copy of every record, ordered by ascending worker id.
    pub fn snapshot(&self) -> (r: Vec<ConnectionStats>)
        requires
            self.wf(),
        ensures
            r@ == self@,
            ids_sorted(r@),
    {
        let mut out: Vec<ConnectionStats> = Vec::new();
        let mut i: usize = 0;
        while i < self.entries.len()
            invariant
                i <= self.entries@.len(),
                out@ == self.entries@.subrange(0, i as int),
            decreases self.entries@.len() - i,
        {
            out.push(self.entries[i]);
            i = i + 1;
            assert(out@ =~= self.entries@.subrange(0, i as int));
        }
        assert(out@ =~= self.entries@);
        out
    }
}

/// The records after storing `s`: it replaces the record of its worker when
/// it keeps every counter at least as high.
pub open spec fn store_model(t: Seq<ConnectionStats>, s: ConnectionStats) -> Seq<ConnectionStats> {
    Seq::new(
        t.len(),
        |j: int|
            if t[j].worker_id == s.worker_id && stats_le(t[j], s) {
                s
            } else {
                t[j]
            },
    )
}

/// The records after storing each of `ss` in order.
pub open spec fn store_all(t: Seq<ConnectionStats>, ss: Seq<ConnectionStats>) -> Seq<ConnectionStats>
    decreases ss.len(),
{
    if ss.len() == 0 {
        t
    } else {
        store_all(store_model(t, ss[0]), ss.drop_first())
    }
}

/// A table made for `n` workers holds exactly `n` records, one per worker id
/// `0..n` in order, after any sequence of updates, and none of its counters is
/// ever lower than before.
pub proof fn lemma_table_keeps_workers(n: nat, t: Seq<ConnectionStats>, ss: Seq<ConnectionStats>)
    requires
        t.len() == n,
        forall|i: int| 0 <= i < n ==> (#[trigger] t[i]).worker_id == i,
    ensures
        store_all(t, ss).len() == n,
        forall|i: int| 0 <= i < n ==> (#[trigger] store_all(t, ss)[i]).worker_id == i,
        table_le(t, store_all(t, ss)),
    decreases ss.len(),
{
    if ss.len() > 0 {
        let t1 = store_model(t, ss[0]);
        assert forall|i: int| 0 <= i < n implies (#[trigger] t1[i]).worker_id == i by {}
        lemma_table_keeps_workers(n, t1, ss.drop_first());
        let u = store_all(t1, ss.drop_first());
        assert forall|j: int| 0 <= j < t.len() implies stats_le(#[trigger] t[j], u[j]) by {
            assert(stats_le(t[j], t1[j]));
            assert(stats_le(t1[j], u[j]));
        }
    }
}

/// Two tables hold the same workers in the same order, and no counter of `b`
/// is below the matching one of `a`.
pub open spec fn table_le(a: Seq<ConnectionStats>, b: Seq<ConnectionStats>) -> bool {
    &&& a.len() == b.len()
    &&& forall|j: int| 0 <= j < a.len() ==> stats_le(#[trigger] a[j], b[j])
}

} // verus!
