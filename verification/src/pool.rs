use vstd::prelude::*;

use crate::state::{claim_step, shutdown_step, PoolState};
use crate::work::{Outcome, WorkFactory};

verus! {

/// The ownership handle for one claimed slot.
///
/// Exactly one baton is handed out per successful claim, and the only way to
/// obtain one is to claim a slot; giving it back through `Sentinel::release`
/// or `Sentinel::settle` consumes it, so each claim is paid back at most
/// once.  The embedding program keeps the baton with the running unit of
/// work and returns it to the sentinel on every exit path, normal or not.
///
/// Nothing inside a baton ties it to the pool it came from: the embedding
/// program must hand it back to the sentinel that issued it, or the two
/// pools' books both go wrong by one slot.
pub struct Baton {
    claimed: (),
}

/// The shared coordinator of a pool: the target concurrency level, the
/// number of claimed slots, and the factory that manufactures a fresh unit
/// of work for every slot the pool claims.
///
/// Its abstract state is a [`PoolState`], read off with `@`; every operation
/// below states over that view how it moves the two counters.
pub struct Sentinel<F: WorkFactory> {
    work_factory: F,
    desired: usize,
    count: usize,
}

impl<F: WorkFactory> View for Sentinel<F> {
    type V = PoolState;

    closed spec fn view(&self) -> PoolState {
        PoolState { desired: self.desired as nat, count: self.count as nat }
    }
}

impl<F: WorkFactory> Sentinel<F> {
    /// The factory this sentinel builds units of work with.
    pub closed spec fn factory(&self) -> F {
        self.work_factory
    }

    /// A sentinel that wants `desired` units running and has claimed no slot
    /// yet.  Balancing is left to the caller: `spawn` is the entry point
    /// that constructs a sentinel and fills it in one move.
    pub fn new(desired: usize, work_factory: F) -> (s: Self)
        ensures
            s@.desired == desired,
            s@.count == 0,
            s.factory() == work_factory,
    {
        Sentinel { work_factory, desired, count: 0 }
    }

    /// Reads the number of currently claimed slots.
    pub fn count(&self) -> (c: usize)
        ensures
            c == self@.count,
    {
        self.count
    }

    /// Reads the target concurrency level.
    pub fn desired(&self) -> (d: usize)
        ensures
            d == self@.desired,
    {
        self.desired
    }

    /// Attempts to claim one slot.  The claim succeeds exactly when the pool
    /// is below its target, and a successful claim yields the baton that
    /// stands for the slot; a failed claim changes nothing.
    pub fn try_claim(&mut self) -> (b: Option<Baton>)
        ensures
            b is Some <==> old(self)@.count < old(self)@.desired,
            b is Some ==> claim_step(old(self)@, final(self)@),
            b is None ==> *final(self) == *old(self),
            final(self).factory() == old(self).factory(),
    {
        if self.count < self.desired {
            self.count = self.count + 1;
            Some(Baton { claimed: () })
        } else {
            None
        }
    }

    /// Brings the number of claimed slots up to the target, building one
    /// fresh unit of work per claimed slot.  Each returned pair is a unit
    /// ready to run together with the baton for its slot; the caller starts
    /// them however it schedules work.  When the pool is already at or above
    /// target — in particular once it is winding down — nothing is claimed,
    /// nothing is built, and the sentinel is left exactly as it was.
    pub fn balance(&mut self) -> (starts: Vec<(F::Work, Baton)>)
        requires
            old(self).factory().build_pre(),
        ensures
            final(self).factory() == old(self).factory(),
            final(self)@.desired == old(self)@.desired,
            old(self)@.count >= old(self)@.desired ==> *final(self) == *old(self)
                && starts@.len() == 0,
            old(self)@.count < old(self)@.desired ==> final(self)@.count == old(self)@.desired,
            starts@.len() == final(self)@.count - old(self)@.count,
            forall|i: int| 0 <= i < starts@.len()
                ==> #[trigger] old(self).factory().build_post(starts@[i].0),
    {
        let ghost pre = *self;
        let mut starts: Vec<(F::Work, Baton)> = Vec::new();
        while self.count < self.desired
            invariant
                self.factory() == pre.factory(),
                self.factory().build_pre(),
                self@.desired == pre@.desired,
                pre@.count <= self@.count,
                pre@.count < pre@.desired ==> self@.count <= pre@.desired,
                pre@.count >= pre@.desired ==> *self == pre,
                starts@.len() == self@.count - pre@.count,
                forall|i: int| 0 <= i < starts@.len()
                    ==> #[trigger] pre.factory().build_post(starts@[i].0),
            decreases self@.desired - self@.count,
        {
            let claimed = self.try_claim();
            let baton = claimed.unwrap();
            let work = self.work_factory.build();
            starts.push((work, baton));
        }
        starts
    }

    /// Gives one claimed slot back, consuming its baton, and immediately
    /// rebalances: the count drops by one and the pool refills itself back
    /// to the target.  In the steady state — at target before the release —
    /// exactly one replacement comes back and the count returns to the
    /// target with no outside help; once the pool is winding down, nothing
    /// is claimed and the count just drops.
    pub fn release(&mut self, baton: Baton) -> (starts: Vec<(F::Work, Baton)>)
        requires
            old(self)@.count > 0,
            old(self).factory().build_pre(),
        ensures
            final(self).factory() == old(self).factory(),
            final(self)@.desired == old(self)@.desired,
            old(self)@.count - 1 >= old(self)@.desired ==> final(self)@.count == old(self)@.count - 1
                && starts@.len() == 0,
            old(self)@.count - 1 < old(self)@.desired ==> final(self)@.count == old(self)@.desired,
            starts@.len() == final(self)@.count - (old(self)@.count - 1),
            forall|i: int| 0 <= i < starts@.len()
                ==> #[trigger] old(self).factory().build_post(starts@[i].0),
    {
        let Baton { claimed: _ } = baton;
        self.count = self.count - 1;
        self.balance()
    }

    /// Winds the pool down: the target drops to zero, so no further slot is
    /// ever claimed.  Running units are unaffected; the claimed count
    /// drains as each of them finishes and releases its slot.
    pub fn shutdown(&mut self)
        ensures
            shutdown_step(old(self)@, final(self)@),
            final(self)@.desired == 0,
            final(self)@.count == old(self)@.count,
            final(self).factory() == old(self).factory(),
    {
        self.desired = 0;
    }

    /// Applies a finished unit's outcome to its slot, consuming the baton.
    /// A refillable slot is released and the pool rebalances; a shutdown
    /// first drops the target to zero, so the release that follows claims
    /// no replacement and the count simply falls by one.
    pub fn settle(&mut self, baton: Baton, outcome: Outcome) -> (starts: Vec<(F::Work, Baton)>)
        requires
            old(self)@.count > 0,
            old(self).factory().build_pre(),
        ensures
            final(self).factory() == old(self).factory(),
            outcome is Shutdown ==> final(self)@.desired == 0
                && final(self)@.count == old(self)@.count - 1
                && starts@.len() == 0,
            outcome is Refill ==> final(self)@.desired == old(self)@.desired
                && (old(self)@.count - 1 >= old(self)@.desired
                    ==> final(self)@.count == old(self)@.count - 1 && starts@.len() == 0)
                && (old(self)@.count - 1 < old(self)@.desired
                    ==> final(self)@.count == old(self)@.desired
                        && starts@.len() == old(self)@.desired - (old(self)@.count - 1)),
            forall|i: int| 0 <= i < starts@.len()
                ==> #[trigger] old(self).factory().build_post(starts@[i].0),
    {
        match outcome {
            Outcome::Refill => self.release(baton),
            Outcome::Shutdown => {
                self.shutdown();
                self.release(baton)
            },
        }
    }
}

/// Starts a pool: constructs a sentinel that wants `desired` units running
/// and balances it, claiming every slot up to the target and building one
/// unit of work per slot.  The returned sentinel has exactly `desired` slots
/// claimed, and the returned pairs are the units to start, each bound to the
/// baton for its slot.
pub fn spawn<F: WorkFactory>(desired: usize, work_factory: F) -> (r: (
    Sentinel<F>,
    Vec<(F::Work, Baton)>,
))
    requires
        work_factory.build_pre(),
    ensures
        r.0@.desired == desired,
        r.0@.count == desired,
        r.0.factory() == work_factory,
        r.1@.len() == desired,
        forall|i: int| 0 <= i < r.1@.len() ==> #[trigger] work_factory.build_post(r.1@[i].0),
{
    let mut sentinel = Sentinel::new(desired, work_factory);
    let starts = sentinel.balance();
    (sentinel, starts)
}

} // verus!
