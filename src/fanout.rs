//! A bounded, lossy, single-producer broadcast channel. Each subscriber has
//! its own cursor into a shared backlog of at most `capacity` frames; when the
//! producer runs ahead, the oldest frames are evicted and a cursor that had not
//! read them learns how many it missed on its next read. Publishing never waits
//! for a subscriber.
use vstd::prelude::*;

verus! {

/// The abstract state of a channel.
pub struct FanoutModel {
    /// The retained frames, oldest first.
    pub frames: Seq<Seq<u8>>,
    /// The sequence number of `frames[0]`.
    pub base: nat,
    /// The most frames retained at once.
    pub capacity: nat,
    /// For each subscriber, the sequence number it reads next; `None` once dropped.
    pub cursors: Seq<Option<nat>>,
    /// Whether the producer side has been closed.
    pub closed: bool,
}

/// What one read on a cursor yields, abstractly.
pub enum Delivery {
    Frame(Seq<u8>),
    Lagged(nat),
    Empty,
    Closed,
}

impl FanoutModel {
    /// The sequence number the next published frame gets.
    pub open spec fn next(self) -> nat {
        self.base + self.frames.len()
    }

    pub open spec fn wf(self) -> bool {
        &&& self.capacity >= 1
        &&& self.frames.len() <= self.capacity
        &&& forall|c: int|
            0 <= c < self.cursors.len() ==> (#[trigger] self.cursors[c] matches Some(p) ==> p
                <= self.next())
    }

    /// Some subscriber still holds its cursor.
    pub open spec fn has_live(self) -> bool {
        exists|c: int| 0 <= c < self.cursors.len() && #[trigger] self.cursors[c] is Some
    }

    /// Subscriber `c` exists and has not been dropped.
    pub open spec fn is_live(self, c: int) -> bool {
        0 <= c < self.cursors.len() && self.cursors[c] is Some
    }
}

/// The state after publishing `f`: a no-op once closed or without subscribers;
/// otherwise `f` is appended and, past capacity, the oldest frame is evicted.
pub open spec fn publish_model(v: FanoutModel, f: Seq<u8>) -> FanoutModel {
    if v.closed || !v.has_live() {
        v
    } else if v.frames.len() + 1 > v.capacity {
        FanoutModel { frames: v.frames.push(f).drop_first(), base: v.base + 1, ..v }
    } else {
        FanoutModel { frames: v.frames.push(f), ..v }
    }
}

/// The state and result of one read on live cursor `c`: a cursor behind the
/// backlog jumps to its start and reports how many frames it missed; otherwise
/// it yields its next frame, or end-of-stream once closed and drained.
pub open spec fn recv_model(v: FanoutModel, c: int) -> (FanoutModel, Delivery) {
    let p = v.cursors[c]->Some_0;
    if p < v.base {
        (
            FanoutModel { cursors: v.cursors.update(c, Some(v.base)), ..v },
            Delivery::Lagged((v.base - p) as nat),
        )
    } else if p < v.next() {
        (
            FanoutModel { cursors: v.cursors.update(c, Some(p + 1)), ..v },
            Delivery::Frame(v.frames[p - v.base]),
        )
    } else if v.closed {
        (v, Delivery::Closed)
    } else {
        (v, Delivery::Empty)
    }
}

/// The result of reading from a cursor.
#[derive(Debug)]
pub enum RecvOutcome {
    /// The next frame in publication order.
    Frame(Vec<u8>),
    /// The cursor fell behind and this many frames were skipped for it.
    Lagged(u64),
    /// Nothing new yet.
    Empty,
    /// The producer is closed and everything buffered has been read.
    Closed,
}

impl View for RecvOutcome {
    type V = Delivery;

    open spec fn view(&self) -> Delivery {
        match self {
            RecvOutcome::Frame(f) => Delivery::Frame(f@),
            RecvOutcome::Lagged(n) => Delivery::Lagged(*n as nat),
            RecvOutcome::Empty => Delivery::Empty,
            RecvOutcome::Closed => Delivery::Closed,
        }
    }
}

pub open spec fn cursor_model(o: Option<u64>) -> Option<nat> {
    match o {
        Some(p) => Some(p as nat),
        None => None,
    }
}

pub struct FanoutChannel {
    frames: std::collections::VecDeque<Vec<u8>>,
    base: u64,
    capacity: usize,
    cursors: Vec<Option<u64>>,
    closed: bool,
}

impl View for FanoutChannel {
    type V = FanoutModel;

    closed spec fn view(&self) -> FanoutModel {
        FanoutModel {
            frames: self.frames@.map_values(|f: Vec<u8>| f@),
            base: self.base as nat,
            capacity: self.capacity as nat,
            cursors: self.cursors@.map_values(|o: Option<u64>| cursor_model(o)),
            closed: self.closed,
        }
    }
}

impl FanoutChannel {
    pub closed spec fn wf(&self) -> bool {
        &&& self@.wf()
        &&& self@.next() <= u64::MAX
    }

    /// An open channel with no subscribers that retains at most `capacity` frames.
    pub fn new(capacity: usize) -> (r: FanoutChannel)
        requires
            capacity >= 1,
        ensures
            r.wf(),
            r@ == (FanoutModel {
                frames: Seq::empty(),
                base: 0,
                capacity: capacity as nat,
                cursors: Seq::empty(),
                closed: false,
            }),
    {
        let r = FanoutChannel {
            frames: std::collections::VecDeque::new(),
            base: 0,
            capacity,
            cursors: Vec::new(),
            closed: false,
        };
        assert(r@.frames =~= Seq::empty());
        assert(r@.cursors =~= Seq::empty());
        r
    }

    /// Adds a subscriber whose cursor starts after every frame published so far.
    pub fn subscribe(&mut self) -> (r: usize)
        requires
            old(self).wf(),
        ensures
            final(self).wf(),
            r == old(self)@.cursors.len(),
            final(self)@ == (FanoutModel {
                cursors: old(self)@.cursors.push(Some(old(self)@.next())),
                ..old(self)@
            }),
    {
        let r = self.cursors.len();
        let next = self.base + self.frames.len() as u64;
        self.cursors.push(Some(next));
        assert(self@.cursors =~= old(self)@.cursors.push(Some(old(self)@.next())));
        r
    }

    /// Drops subscriber `c`'s cursor; frames are no longer kept for it.
    pub fn unsubscribe(&mut self, c: usize)
        requires
            old(self).wf(),
        ensures
            final(self).wf(),
            c < old(self)@.cursors.len() ==> final(self)@ == (FanoutModel {
                cursors: old(self)@.cursors.update(c as int, None),
                ..old(self)@
            }),
            c >= old(self)@.cursors.len() ==> final(self)@ == old(self)@,
    {
        if c < self.cursors.len() {
            self.cursors.set(c, None);
            assert(self@.cursors =~= old(self)@.cursors.update(c as int, None));
        }
    }

    /// Closes the producer side: readers drain what is buffered, then see `Closed`.
    pub fn close(&mut self)
        requires
            old(self).wf(),
        ensures
            final(self).wf(),
            final(self)@ == (FanoutModel { closed: true, ..old(self)@ }),
    {
        self.closed = true;
    }

    pub fn is_closed(&self) -> (r: bool)
        ensures
            r == self@.closed,
    {
        self.closed
    }

    /// The sequence number the next published frame gets.
    pub fn next_sequence(&self) -> (r: u64)
        requires
            self.wf(),
        ensures
            r == self@.next(),
    {
        self.base + self.frames.len() as u64
    }

    /// Whether `c` is a subscriber that has not been dropped.
    pub fn is_live(&self, c: usize) -> (r: bool)
        ensures
            r == self@.is_live(c as int),
    {
        c < self.cursors.len() && self.cursors[c].is_some()
    }

    /// Whether some subscriber still holds its cursor.
    pub fn has_subscribers(&self) -> (r: bool)
        ensures
            r == self@.has_live(),
    {
        let mut i: usize = 0;
        while i < self.cursors.len()
            invariant
                i <= self.cursors@.len(),
                forall|j: int| 0 <= j < i ==> self.cursors@[j] is None,
            decreases self.cursors@.len() - i,
        {
            if self.cursors[i].is_some() {
                assert(self@.cursors[i as int] is Some);
                return true;
            }
            i = i + 1;
        }
        assert forall|j: int| 0 <= j < self@.cursors.len() implies !(
        #[trigger] self@.cursors[j] is Some) by {
            assert(self.cursors@[j] is None);
        }
        false
    }

    /// Publishes one frame without waiting for any subscriber. Returns whether
    /// it was stored: not once closed, nor when every cursor has been dropped.
    pub fn publish(&mut self, frame: Vec<u8>) -> (r: bool)
        requires
            old(self).wf(),
            old(self)@.next() < u64::MAX,
        ensures
            final(self).wf(),
            final(self)@ == publish_model(old(self)@, frame@),
            r == (!old(self)@.closed && old(self)@.has_live()),
    {
        if self.closed || !self.has_subscribers() {
            return false;
        }
        let ghost fv = frame@;
        self.frames.push_back(frame);
        if self.frames.len() > self.capacity {
            let _ = self.frames.pop_front();
            self.base = self.base + 1;
            assert(self@.frames =~= old(self)@.frames.push(fv).drop_first());
        } else {
            assert(self@.frames =~= old(self)@.frames.push(fv));
        }
        assert(self@.cursors =~= old(self)@.cursors);
        true
    }

    /// Reads once from live cursor `c`, without waiting.
    pub fn recv(&mut self, c: usize) -> (r: RecvOutcome)
        requires
            old(self).wf(),
            old(self)@.is_live(c as int),
        ensures
            final(self).wf(),
            (final(self)@, r@) == recv_model(old(self)@, c as int),
    {
        let p = match self.cursors[c] {
            Some(p) => p,
            None => 0,
        };
        let next = self.base + self.frames.len() as u64;
        if p < self.base {
            let n = self.base - p;
            self.cursors.set(c, Some(self.base));
            assert(self@.cursors =~= old(self)@.cursors.update(c as int, Some(old(self)@.base)));
            RecvOutcome::Lagged(n)
        } else if p < next {
            let f = self.frames[(p - self.base) as usize].clone();
            self.cursors.set(c, Some(p + 1));
            assert(self@.cursors =~= old(self)@.cursors.update(c as int, Some((p + 1) as nat)));
            assert(f@ =~= old(self)@.frames[p - old(self)@.base]);
            RecvOutcome::Frame(f)
        } else if self.closed {
            RecvOutcome::Closed
        } else {
            RecvOutcome::Empty
        }
    }
}

/// The state after publishing each frame of `fs` in order.
pub open spec fn publish_all(v: FanoutModel, fs: Seq<Seq<u8>>) -> FanoutModel
    decreases fs.len(),
{
    if fs.len() == 0 {
        v
    } else {
        publish_all(publish_model(v, fs[0]), fs.drop_first())
    }
}

/// How many of `n` buffered-or-published frames do not fit in `cap`.
pub open spec fn overflow(n: int, cap: int) -> int {
    if n > cap {
        n - cap
    } else {
        0
    }
}

/// Publishing a sequence of frames on an open channel with a subscriber keeps
/// the last `capacity` frames of everything buffered and published, moves no
/// cursor, and advances the backlog start by the number of frames evicted.
pub proof fn lemma_publish_all_shape(v: FanoutModel, fs: Seq<Seq<u8>>)
    requires
        v.wf(),
        !v.closed,
        v.has_live(),
    ensures
        ({
            let w = publish_all(v, fs);
            let all = v.frames + fs;
            let d = overflow(all.len() as int, v.capacity as int);
            &&& w.wf()
            &&& w.frames == all.subrange(d, all.len() as int)
            &&& w.base == v.base + d
            &&& w.cursors == v.cursors
            &&& w.capacity == v.capacity
            &&& !w.closed
        }),
    decreases fs.len(),
{
    let all = v.frames + fs;
    if fs.len() == 0 {
        assert(all =~= v.frames);
        assert(all.subrange(0, all.len() as int) =~= all);
    } else {
        let v1 = publish_model(v, fs[0]);
        let rest = fs.drop_first();
        let len = v.frames.len() as int;
        if len + 1 > v.capacity {
            assert(v1.frames =~= all.subrange(1, len + 1));
        } else {
            assert(v1.frames =~= all.subrange(0, len + 1));
        }
        assert(v1.has_live()) by {
            let c = choose|c: int| 0 <= c < v.cursors.len() && #[trigger] v.cursors[c] is Some;
            assert(v1.cursors[c] is Some);
        }
        assert forall|c: int| 0 <= c < v1.cursors.len() implies (#[trigger] v1.cursors[c] matches Some(
            p,
        ) ==> p <= v1.next()) by {
            assert(v.cursors[c] == v1.cursors[c]);
        }
        lemma_publish_all_shape(v1, rest);
        let all1 = v1.frames + rest;
        if len + 1 > v.capacity {
            assert(all1 =~= all.subrange(1, all.len() as int));
        } else {
            assert(all1 =~= all);
        }
        let d = overflow(all.len() as int, v.capacity as int);
        let d1 = overflow(all1.len() as int, v.capacity as int);
        assert(publish_all(v, fs) == publish_all(v1, rest));
        if len + 1 > v.capacity {
            assert(d == d1 + 1);
            assert(all1.subrange(d1, all1.len() as int) =~= all.subrange(d, all.len() as int));
        }
    }
}

/// A subscriber that has read everything and then stops reading while more
/// than `capacity` frames are published: publishing went on regardless and
/// moved no cursor, and when the subscriber reads again it is told that it
/// missed exactly the frames that no longer fit, after which the backlog holds
/// the last `capacity` frames published.
pub proof fn lemma_idle_subscriber_lag(v: FanoutModel, fs: Seq<Seq<u8>>, c: int)
    requires
        v.wf(),
        !v.closed,
        v.is_live(c),
        v.cursors[c] == Some(v.next()),
        fs.len() > v.capacity,
    ensures
        publish_all(v, fs).cursors == v.cursors,
        recv_model(publish_all(v, fs), c).1 == Delivery::Lagged((fs.len() - v.capacity) as nat),
        publish_all(v, fs).frames == fs.subrange(fs.len() - v.capacity, fs.len() as int),
{
    assert(v.has_live());
    lemma_publish_all_shape(v, fs);
    let all = v.frames + fs;
    let d = overflow(all.len() as int, v.capacity as int);
    assert(all.subrange(d, all.len() as int) =~= fs.subrange(
        fs.len() - v.capacity,
        fs.len() as int,
    ));
}

/// The frames that live cursor `c` has yet to read, when it has not fallen
/// behind the backlog.
pub open spec fn pending(v: FanoutModel, c: int) -> Seq<Seq<u8>> {
    let p = v.cursors[c]->Some_0;
    v.frames.subrange(p - v.base, v.frames.len() as int)
}

/// A subscriber that stays within `capacity` frames of the producer never
/// lags: after frames are published its unread frames are exactly those it
/// had not read before, followed by every newly published frame in order.
pub proof fn lemma_keeping_up_sees_every_frame(v: FanoutModel, fs: Seq<Seq<u8>>, c: int)
    requires
        v.wf(),
        !v.closed,
        v.is_live(c),
        v.cursors[c]->Some_0 >= v.base,
        v.next() - v.cursors[c]->Some_0 + fs.len() <= v.capacity,
    ensures
        publish_all(v, fs).cursors[c] == v.cursors[c],
        v.cursors[c]->Some_0 >= publish_all(v, fs).base,
        pending(publish_all(v, fs), c) == pending(v, c) + fs,
{
    assert(v.has_live());
    lemma_publish_all_shape(v, fs);
    let w = publish_all(v, fs);
    let p = v.cursors[c]->Some_0;
    let all = v.frames + fs;
    let d = overflow(all.len() as int, v.capacity as int);
    assert(w.frames.subrange(p - w.base, w.frames.len() as int) =~= v.frames.subrange(
        p - v.base,
        v.frames.len() as int,
    ) + fs);
}

/// Reading from a live cursor that has not fallen behind yields its first
/// unread frame and leaves the rest unread, or reports end-of-stream only once
/// the channel is closed and nothing is left.
pub proof fn lemma_read_pending(v: FanoutModel, c: int)
    requires
        v.wf(),
        v.is_live(c),
        v.cursors[c]->Some_0 >= v.base,
    ensures
        pending(v, c).len() > 0 ==> recv_model(v, c).1 == Delivery::Frame(pending(v, c)[0])
            && pending(recv_model(v, c).0, c) == pending(v, c).drop_first(),
        pending(v, c).len() == 0 ==> recv_model(v, c).1 == (if v.closed {
            Delivery::Closed
        } else {
            Delivery::Empty
        }),
{
    let w = recv_model(v, c).0;
    if pending(v, c).len() > 0 {
        assert(pending(w, c) =~= pending(v, c).drop_first());
    }
}

} // verus!
