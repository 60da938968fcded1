//! The single slot that holds the supervised backend between launch and
//! shutdown, and the laws of its use.

use vstd::prelude::*;
use crate::teardown::KillStrategy;
use crate::teardown::is_teardown_plan;
use crate::teardown::teardown_plan;
use crate::teardown::TeardownAction;

verus! {

/// Where the supervised process is in its life.
#[derive(Clone, Copy, Debug, PartialEq, Eq, Structural)]
pub enum Phase {
    /// No launch has been recorded yet.
    NotStarted,
    /// A spawned process is held in the slot.
    Running,
    /// The spawn failed, or the process was taken for teardown.
    Terminated,
}

/// A spawned backend: the live process reference and the identifier the
/// platform gave it at spawn time.
pub struct LiveBackend<H> {
    pub handle: H,
    pub pid: u32,
}

/// What one shutdown took out of the slot, and how to terminate it.
pub struct Teardown<H> {
    pub handle: H,
    pub pid: u32,
    /// Actions to perform, in order, each best effort.
    pub actions: Vec<TeardownAction>,
}

/// Holds at most one live backend. It is filled at most once, by the launch,
/// and emptied by the first shutdown that finds something in it.
pub struct BackendSlot<H> {
    phase: Phase,
    live: Option<LiveBackend<H>>,
}

/// The phase that follows a shutdown from phase `ph`.
pub open spec fn phase_after_shutdown(ph: Phase) -> Phase {
    match ph {
        Phase::Running => Phase::Terminated,
        _ => ph,
    }
}

/// The phase that a recorded launch outcome leads to.
pub open spec fn phase_after_launch<H>(outcome: Option<LiveBackend<H>>) -> Phase {
    match outcome {
        Some(_) => Phase::Running,
        None => Phase::Terminated,
    }
}

/// `after` and `accepted` are what recording launch `outcome` in `before`
/// gives: only a slot that has not started takes it, and any other is left
/// as it was.
pub open spec fn launch_post<H>(
    before: BackendSlot<H>,
    after: BackendSlot<H>,
    outcome: Option<LiveBackend<H>>,
    accepted: bool,
) -> bool {
    &&& accepted == (before.phase() == Phase::NotStarted)
    &&& accepted ==> after.live() == outcome && after.phase() == phase_after_launch(outcome)
    &&& !accepted ==> after == before
}

/// `after` and `r` are what a shutdown under strategy `s` gives from
/// `before`: the held backend, if any, is taken out with its teardown plan,
/// and the slot is left empty.
pub open spec fn shutdown_post<H>(
    before: BackendSlot<H>,
    after: BackendSlot<H>,
    r: Option<Teardown<H>>,
    s: KillStrategy,
) -> bool {
    &&& after.live() is None
    &&& after.phase() == phase_after_shutdown(before.phase())
    &&& r is Some <==> before.live() is Some
    &&& r is Some ==> {
        let t = r.unwrap();
        let b = before.live().unwrap();
        &&& t.handle == b.handle
        &&& t.pid == b.pid
        &&& is_teardown_plan(s, b.pid, t.actions@)
    }
}

impl<H> BackendSlot<H> {
    pub closed spec fn phase(&self) -> Phase {
        self.phase
    }

    /// The backend held, if any.
    pub closed spec fn live(&self) -> Option<LiveBackend<H>> {
        self.live
    }

    /// A backend is held exactly while the phase is `Running`.
    pub open spec fn wf(&self) -> bool {
        (self.phase() == Phase::Running) == self.live() is Some
    }

    /// An empty slot, before any launch.
    pub fn new() -> (r: BackendSlot<H>)
        ensures
            r.phase() == Phase::NotStarted,
            r.live() is None,
            r.wf(),
    {
        BackendSlot { phase: Phase::NotStarted, live: None }
    }

    /// Records the outcome of the single launch attempt: the spawned backend,
    /// or `None` where the spawn failed. A slot that has already seen a
    /// launch is never filled again; `false` tells that case.
    pub fn record_launch(&mut self, outcome: Option<LiveBackend<H>>) -> (accepted: bool)
        ensures
            launch_post(*old(self), *final(self), outcome, accepted),
            old(self).wf() ==> final(self).wf(),
    {
        if self.phase != Phase::NotStarted {
            return false;
        }
        let phase = match &outcome {
            Some(_) => Phase::Running,
            None => Phase::Terminated,
        };
        *self = BackendSlot { phase, live: outcome };
        true
    }

    /// Takes the held backend out for termination under strategy `s`,
    /// leaving the slot empty. Returns `None`, and kills nothing, when no
    /// backend is held: before a launch, after a failed one, or after an
    /// earlier shutdown.
    pub fn shutdown(&mut self, s: KillStrategy) -> (r: Option<Teardown<H>>)
        ensures
            shutdown_post(*old(self), *final(self), r, s),
            old(self).wf() ==> final(self).wf(),
    {
        let taken = self.take_live();
        match taken {
            Some(b) => {
                let actions = teardown_plan(s, b.pid);
                Some(Teardown { handle: b.handle, pid: b.pid, actions })
            },
            None => None,
        }
    }

    fn take_live(&mut self) -> (r: Option<LiveBackend<H>>)
        ensures
            r == old(self).live(),
            final(self).live() is None,
            final(self).phase() == phase_after_shutdown(old(self).phase()),
    {
        if self.phase == Phase::Running {
            self.phase = Phase::Terminated;
        }
        self.live.take()
    }

    /// The current phase.
    pub fn current_phase(&self) -> (r: Phase)
        ensures
            r == self.phase(),
    {
        self.phase
    }

    /// Whether a backend is held.
    pub fn holds_backend(&self) -> (r: bool)
        ensures
            r == self.live() is Some,
    {
        self.live.is_some()
    }
}

/// Shutting down twice in a row terminates at most once: the first shutdown
/// takes the backend if one was held, and the second finds the slot empty,
/// takes nothing and leaves the slot as the first left it.
pub proof fn lemma_shutdown_twice<H>(
    s0: BackendSlot<H>,
    s1: BackendSlot<H>,
    s2: BackendSlot<H>,
    r1: Option<Teardown<H>>,
    r2: Option<Teardown<H>>,
    s: KillStrategy,
)
    requires
        shutdown_post(s0, s1, r1, s),
        shutdown_post(s1, s2, r2, s),
    ensures
        r1 is Some <==> s0.live() is Some,
        r2 is None,
        s2.live() == s1.live(),
        s2.phase() == s1.phase(),
{
}

/// When the launch recorded a failed spawn, no handle was stored, and a
/// later shutdown takes nothing, so nothing is killed.
pub proof fn lemma_failed_launch_shutdown<H>(
    s0: BackendSlot<H>,
    s1: BackendSlot<H>,
    s2: BackendSlot<H>,
    accepted: bool,
    r: Option<Teardown<H>>,
    s: KillStrategy,
)
    requires
        s0.phase() == Phase::NotStarted,
        s0.live() is None,
        launch_post(s0, s1, None, accepted),
        shutdown_post(s1, s2, r, s),
    ensures
        s1.live() is None,
        r is None,
        s2.live() is None,
        s2.phase() == Phase::Terminated,
{
}

/// Shutdown attempts on one slot are serialised by the lock around it, so
/// any number of them form a sequence of shutdowns, each starting from the
/// slot the previous one left. Of such a sequence at most one takes the
/// backend, and it can only be the first.
pub proof fn lemma_at_most_one_take<H>(
    states: Seq<BackendSlot<H>>,
    results: Seq<Option<Teardown<H>>>,
    s: KillStrategy,
)
    requires
        states.len() == results.len() + 1,
        forall|i: int|
            0 <= i < results.len() ==> shutdown_post(#[trigger] states[i], states[i + 1], results[i], s),
    ensures
        forall|i: int| 0 < i < results.len() ==> (#[trigger] results[i]) is None,
        forall|i: int, j: int|
            0 <= i < results.len() && 0 <= j < results.len() && (#[trigger] results[i]) is Some
                && (#[trigger] results[j]) is Some ==> i == j,
        results.len() > 0 ==> (results[0] is Some <==> states[0].live() is Some),
{
    assert forall|i: int| 0 < i < results.len() implies (#[trigger] results[i]) is None by {
        assert(shutdown_post(states[i - 1], states[i], results[i - 1], s));
        assert(shutdown_post(states[i], states[i + 1], results[i], s));
    }
    if results.len() > 0 {
        assert(shutdown_post(states[0], states[1], results[0], s));
    }
}

} // verus!
