use vstd::prelude::*;

verus! {

/// The pool's shared bookkeeping, reduced to the two counters that every
/// transition reads and writes: the target concurrency level and the number
/// of slots currently claimed.
pub ghost struct PoolState {
    /// Target concurrency level; dropping it to zero winds the pool down.
    pub desired: nat,
    /// Number of slots currently claimed.
    pub count: nat,
}

/// One slot is claimed.  A claim is allowed only while the pool is below its
/// target, so the claimed count can never be pushed past the target.
pub open spec fn claim_step(pre: PoolState, post: PoolState) -> bool {
    &&& pre.count < pre.desired
    &&& post.desired == pre.desired
    &&& post.count == pre.count + 1
}

/// One previously claimed slot is given back.
pub open spec fn release_step(pre: PoolState, post: PoolState) -> bool {
    &&& pre.count > 0
    &&& post.desired == pre.desired
    &&& post.count == pre.count - 1
}

/// Some unit of work winds the pool down: the target drops to zero while the
/// claimed count is left alone, so running units are unaffected.
pub open spec fn shutdown_step(pre: PoolState, post: PoolState) -> bool {
    &&& post.desired == 0
    &&& post.count == pre.count
}

/// A claim or a release: the steady-state churn of a running pool.
pub open spec fn churn_step(pre: PoolState, post: PoolState) -> bool {
    claim_step(pre, post) || release_step(pre, post)
}

/// Any single transition the pool can take.
pub open spec fn pool_step(pre: PoolState, post: PoolState) -> bool {
    claim_step(pre, post) || release_step(pre, post) || shutdown_step(pre, post)
}

/// The sequence of states is one possible history of the pool: each state is
/// followed by a state one transition away.
pub open spec fn evolution(t: Seq<PoolState>) -> bool {
    forall|i: int| 0 <= i && i + 1 < t.len() ==> #[trigger] pool_step(t[i], t[i + 1])
}

/// A history made of claims and releases alone, with no shutdown.
pub open spec fn churn_evolution(t: Seq<PoolState>) -> bool {
    forall|i: int| 0 <= i && i + 1 < t.len() ==> #[trigger] churn_step(t[i], t[i + 1])
}

} // verus!
