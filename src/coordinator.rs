//! The harness-level shutdown state machine. On the trigger it asks for the
//! producer side to be closed, then waits for every worker to finish; a hard
//! deadline bounds that wait, after which it calls for a forced exit and names
//! the workers still outstanding.
use vstd::prelude::*;

verus! {

#[derive(Clone, Copy, Debug, PartialEq, Eq, Structural)]
pub enum HarnessPhase {
    Running,
    ShuttingDown,
    Joined,
    ForcedExit,
}

#[derive(Clone, Copy, Debug, PartialEq, Eq, Structural)]
pub enum HarnessEvent {
    /// An interrupt, or the source ran dry.
    Trigger,
    /// The worker with this id reached `Closed` or `Failed`.
    WorkerFinished(usize),
    /// Time passed.
    Tick,
}

#[derive(Clone, Copy, Debug, PartialEq, Eq, Structural)]
pub enum HarnessAction {
    Nothing,
    /// Close the fanout channel's producer side so that every cursor ends.
    CloseProducer,
    /// Every worker finished in time: exit normally.
    ExitJoined,
    /// The deadline passed with workers outstanding: exit at once.
    ExitForced,
}

/// The abstract state of the coordinator.
pub struct CoordinatorModel {
    pub phase: HarnessPhase,
    /// For each worker id, whether it has finished.
    pub finished: Seq<bool>,
    /// The instant after which the join is abandoned; set by the trigger.
    pub deadline_at: u64,
    /// How long the join may take after the trigger.
    pub join_timeout_ms: u64,
}

pub open spec fn all_finished(f: Seq<bool>) -> bool {
    forall|i: int| 0 <= i < f.len() ==> #[trigger] f[i]
}

pub open spec fn is_final_phase(p: HarnessPhase) -> bool {
    p is Joined || p is ForcedExit
}

/// One decision of the coordinator, given an event at time `now`.
pub open spec fn coordinator_model(c: CoordinatorModel, ev: HarnessEvent, now: u64) -> (
    CoordinatorModel,
    HarnessAction,
) {
    if is_final_phase(c.phase) {
        (c, HarnessAction::Nothing)
    } else {
        match ev {
            HarnessEvent::Trigger => if c.phase is Running {
                (
                    CoordinatorModel {
                        phase: HarnessPhase::ShuttingDown,
                        deadline_at: now.saturating_add(c.join_timeout_ms),
                        ..c
                    },
                    HarnessAction::CloseProducer,
                )
            } else {
                (c, HarnessAction::Nothing)
            },
            HarnessEvent::WorkerFinished(id) => {
                let f = if id < c.finished.len() {
                    c.finished.update(id as int, true)
                } else {
                    c.finished
                };
                if c.phase is ShuttingDown && all_finished(f) {
                    (
                        CoordinatorModel { phase: HarnessPhase::Joined, finished: f, ..c },
                        HarnessAction::ExitJoined,
                    )
                } else {
                    (CoordinatorModel { finished: f, ..c }, HarnessAction::Nothing)
                }
            },
            HarnessEvent::Tick => if c.phase is ShuttingDown {
                if all_finished(c.finished) {
                    (
                        CoordinatorModel { phase: HarnessPhase::Joined, ..c },
                        HarnessAction::ExitJoined,
                    )
                } else if now >= c.deadline_at {
                    (
                        CoordinatorModel { phase: HarnessPhase::ForcedExit, ..c },
                        HarnessAction::ExitForced,
                    )
                } else {
                    (c, HarnessAction::Nothing)
                }
            } else {
                (c, HarnessAction::Nothing)
            },
        }
    }
}

pub struct Coordinator {
    phase: HarnessPhase,
    finished: Vec<bool>,
    deadline_at: u64,
    join_timeout_ms: u64,
}

impl View for Coordinator {
    type V = CoordinatorModel;

    closed spec fn view(&self) -> CoordinatorModel {
        CoordinatorModel {
            phase: self.phase,
            finished: self.finished@,
            deadline_at: self.deadline_at,
            join_timeout_ms: self.join_timeout_ms,
        }
    }
}

impl Coordinator {
    /// A running harness with `workers` workers, none finished, whose join may
    /// take `join_timeout_ms` after the trigger.
    pub fn new(workers: usize, join_timeout_ms: u64) -> (r: Coordinator)
        ensures
            r@.phase is Running,
            r@.finished == Seq::new(workers as nat, |i: int| false),
            r@.join_timeout_ms == join_timeout_ms,
    {
        let mut finished: Vec<bool> = Vec::new();
        let mut i: usize = 0;
        while i < workers
            invariant
                i <= workers,
                finished@ == Seq::new(i as nat, |j: int| false),
            decreases workers - i,
        {
            finished.push(false);
            i = i + 1;
            assert(finished@ =~= Seq::new(i as nat, |j: int| false));
        }
        Coordinator { phase: HarnessPhase::Running, finished, deadline_at: 0, join_timeout_ms }
    }

    pub fn phase(&self) -> (r: HarnessPhase)
        ensures
            r == self@.phase,
    {
        self.phase
    }

    /// The instant after which the join is abandoned.
    pub fn deadline_at(&self) -> (r: u64)
        ensures
            r == self@.deadline_at,
    {
        self.deadline_at
    }

    fn all_finished(&self) -> (r: bool)
        ensures
            r == all_finished(self@.finished),
    {
        let mut i: usize = 0;
        while i < self.finished.len()
            invariant
                i <= self.finished@.len(),
                forall|j: int| 0 <= j < i ==> #[trigger] self.finished@[j],
            decreases self.finished@.len() - i,
        {
            if !self.finished[i] {
                return false;
            }
            i = i + 1;
        }
        true
    }

    /// The ids of the workers that have not finished, in ascending order.
    pub fn outstanding(&self) -> (r: Vec<usize>)
        ensures
            forall|k: int| 0 <= k < r@.len() ==> #[trigger] r@[k] < self@.finished.len() && !self@.finished[r@[k] as int],
            forall|id: int| 0 <= id < self@.finished.len() && !self@.finished[id] ==> r@.contains(id as usize),
            forall|a: int, b: int| 0 <= a < b < r@.len() ==> r@[a] < r@[b],
    {
        let mut out: Vec<usize> = Vec::new();
        let mut i: usize = 0;
        while i < self.finished.len()
            invariant
                i <= self.finished@.len(),
                forall|k: int| 0 <= k < out@.len() ==> #[trigger] out@[k] < i && !self.finished@[out@[k] as int],
                forall|id: int| 0 <= id < i && !self.finished@[id] ==> out@.contains(id as usize),
                forall|a: int, b: int| 0 <= a < b < out@.len() ==> out@[a] < out@[b],
            decreases self.finished@.len() - i,
        {
            let ghost prev = out@;
            if !self.finished[i] {
                out.push(i);
                assert(out@[out@.len() - 1] == i);
            }
            assert forall|id: int| 0 <= id <= i && !self.finished@[id] implies out@.contains(
                id as usize,
            ) by {
                if id < i {
                    let k = choose|k: int| 0 <= k < prev.len() && prev[k] == id as usize;
                    assert(out@[k] == id as usize);
                } else {
                    assert(out@[out@.len() - 1] == i);
                }
            }
            i = i + 1;
        }
        out
    }

    /// Applies one event at time `now` and says what the harness does next.
    pub fn step(&mut self, ev: HarnessEvent, now: u64) -> (r: HarnessAction)
        ensures
            (final(self)@, r) == coordinator_model(old(self)@, ev, now),
    {
        if self.phase == HarnessPhase::Joined || self.phase == HarnessPhase::ForcedExit {
            return HarnessAction::Nothing;
        }
        match ev {
            HarnessEvent::Trigger => {
                if self.phase == HarnessPhase::Running {
                    self.phase = HarnessPhase::ShuttingDown;
                    self.deadline_at = now.saturating_add(self.join_timeout_ms);
                    HarnessAction::CloseProducer
                } else {
                    HarnessAction::Nothing
                }
            },
            HarnessEvent::WorkerFinished(id) => {
                if id < self.finished.len() {
                    self.finished.set(id, true);
                }
                if self.phase == HarnessPhase::ShuttingDown && self.all_finished() {
                    self.phase = HarnessPhase::Joined;
                    HarnessAction::ExitJoined
                } else {
                    HarnessAction::Nothing
                }
            },
            HarnessEvent::Tick => {
                if self.phase == HarnessPhase::ShuttingDown {
                    if self.all_finished() {
                        self.phase = HarnessPhase::Joined;
                        HarnessAction::ExitJoined
                    } else if now >= self.deadline_at {
                        self.phase = HarnessPhase::ForcedExit;
                        HarnessAction::ExitForced
                    } else {
                        HarnessAction::Nothing
                    }
                } else {
                    HarnessAction::Nothing
                }
            },
        }
    }
}

/// The coordinator after each timed event of `evs` in order.
pub open spec fn coordinator_run(c: CoordinatorModel, evs: Seq<(HarnessEvent, u64)>) -> CoordinatorModel
    decreases evs.len(),
{
    if evs.len() == 0 {
        c
    } else {
        coordinator_run(coordinator_model(c, evs[0].0, evs[0].1).0, evs.drop_first())
    }
}

/// Once `Joined` or `ForcedExit` is reached, no later event changes the state:
/// the two outcomes exclude each other and each is reached at most once.
pub proof fn lemma_final_phase_is_permanent(c: CoordinatorModel, evs: Seq<(HarnessEvent, u64)>)
    requires
        is_final_phase(c.phase),
    ensures
        coordinator_run(c, evs) == c,
    decreases evs.len(),
{
    if evs.len() > 0 {
        lemma_final_phase_is_permanent(c, evs.drop_first());
    }
}

/// After a trigger at `t`, a worker that never finishes makes the first tick
/// at or after `t` plus the join timeout end in `ForcedExit`, with that
/// worker still among the unfinished ones; no earlier tick forces the exit.
pub proof fn lemma_hung_worker_forces_exit(c: CoordinatorModel, t: u64, hung: int, now: u64)
    requires
        c.phase is Running,
        0 <= hung < c.finished.len(),
        !c.finished[hung],
        t as int + c.join_timeout_ms as int <= u64::MAX,
    ensures
        ({
            let s = coordinator_model(c, HarnessEvent::Trigger, t).0;
            let (f, a) = coordinator_model(s, HarnessEvent::Tick, now);
            &&& s.deadline_at == t + c.join_timeout_ms
            &&& now >= t + c.join_timeout_ms ==> f.phase is ForcedExit && a is ExitForced
                && !f.finished[hung]
            &&& now < t + c.join_timeout_ms ==> f.phase is ShuttingDown
        }),
{
    let s = coordinator_model(c, HarnessEvent::Trigger, t).0;
    assert(!all_finished(s.finished));
}

/// When every worker has finished by a tick after the trigger, the harness
/// ends in `Joined`, whatever the time.
pub proof fn lemma_all_finished_joins(c: CoordinatorModel, now: u64)
    requires
        c.phase is ShuttingDown,
        all_finished(c.finished),
    ensures
        coordinator_model(c, HarnessEvent::Tick, now).0.phase is Joined,
        coordinator_model(c, HarnessEvent::Tick, now).1 is ExitJoined,
{
}

} // verus!
