use vstd::prelude::*;

use crate::state::{churn_evolution, churn_step, claim_step, evolution, pool_step, PoolState};

verus! {

/// Both counters of `s` lie within the bound `n`.
pub open spec fn bounded_by(s: PoolState, n: nat) -> bool {
    s.count <= n && s.desired <= n
}

/// Law: the claimed count never exceeds the initial target.
///
/// In any history of pool transitions whose first state lies within a bound
/// `n` — in particular one that starts with no slot claimed and a target of
/// `n` — every state of the history keeps both counters within `n`: a claim
/// is evaluated strictly below the current target, and the target itself
/// never rises.
pub proof fn lemma_level_bounded(t: Seq<PoolState>, n: nat)
    requires
        t.len() > 0,
        evolution(t),
        bounded_by(t[0], n),
    ensures
        forall|i: int| 0 <= i < t.len() ==> #[trigger] bounded_by(t[i], n),
    decreases t.len(),
{
    if t.len() > 1 {
        let prefix = t.drop_last();
        assert(evolution(prefix)) by {
            assert forall|i: int| 0 <= i && i + 1 < prefix.len() implies #[trigger] pool_step(
                prefix[i],
                prefix[i + 1],
            ) by {
                assert(pool_step(t[i], t[i + 1]));
            }
        }
        lemma_level_bounded(prefix, n);
        let k = t.len() - 1;
        assert(bounded_by(prefix[k - 1], n));
        assert(pool_step(t[k - 1], t[k - 1 + 1]));
        assert(pool_step(t[k - 1], t[k]));
        assert forall|i: int| 0 <= i < t.len() implies #[trigger] bounded_by(t[i], n) by {
            if i < k {
                assert(bounded_by(prefix[i], n));
            }
        }
    }
}

/// Law: no double counting.
///
/// In a history made of claims and releases alone, the claimed count never
/// exceeds the target, and the target itself never moves.  Together with the
/// counters being natural numbers — the count cannot go below zero, and a
/// release is only enabled while some slot is claimed — this pins the count
/// to the interval from zero to the target under any interleaving of the two
/// transitions.
pub proof fn lemma_no_double_counting(t: Seq<PoolState>)
    requires
        t.len() > 0,
        churn_evolution(t),
        t[0].count <= t[0].desired,
    ensures
        forall|i: int| 0 <= i < t.len() ==> (#[trigger] t[i]).count <= t[i].desired,
        forall|i: int| 0 <= i < t.len() ==> (#[trigger] t[i]).desired == t[0].desired,
    decreases t.len(),
{
    if t.len() > 1 {
        let prefix = t.drop_last();
        assert(churn_evolution(prefix)) by {
            assert forall|i: int| 0 <= i && i + 1 < prefix.len() implies #[trigger] churn_step(
                prefix[i],
                prefix[i + 1],
            ) by {
                assert(churn_step(t[i], t[i + 1]));
            }
        }
        lemma_no_double_counting(prefix);
        let k = t.len() - 1;
        assert(prefix[k - 1] == t[k - 1]);
        assert(churn_step(t[k - 1], t[k - 1 + 1]));
        assert(churn_step(t[k - 1], t[k]));
        assert forall|i: int| 0 <= i < t.len() implies (#[trigger] t[i]).count <= t[i].desired
            && t[i].desired == t[0].desired by {
            if i < k {
                assert(prefix[i] == t[i]);
            }
        }
    }
}

/// Once the target is zero, every transition leaves it at zero: a claim
/// would need the count to lie below zero, a release keeps the target, and
/// a further shutdown sets it to zero again.
proof fn lemma_target_stays_zero(t: Seq<PoolState>)
    requires
        t.len() > 0,
        evolution(t),
        t[0].desired == 0,
    ensures
        forall|i: int| 0 <= i < t.len() ==> (#[trigger] t[i]).desired == 0,
    decreases t.len(),
{
    if t.len() > 1 {
        let prefix = t.drop_last();
        assert(evolution(prefix)) by {
            assert forall|i: int| 0 <= i && i + 1 < prefix.len() implies #[trigger] pool_step(
                prefix[i],
                prefix[i + 1],
            ) by {
                assert(pool_step(t[i], t[i + 1]));
            }
        }
        lemma_target_stays_zero(prefix);
        let k = t.len() - 1;
        assert(prefix[k - 1] == t[k - 1]);
        assert(pool_step(t[k - 1], t[k - 1 + 1]));
        assert(pool_step(t[k - 1], t[k]));
        assert forall|i: int| 0 <= i < t.len() implies (#[trigger] t[i]).desired == 0 by {
            if i < k {
                assert(prefix[i] == t[i]);
            }
        }
    }
}

/// In a history whose every state has target zero, the claimed count never
/// rises between any two points.
proof fn lemma_drained_pair(t: Seq<PoolState>, i: int, j: int)
    requires
        evolution(t),
        forall|k: int| 0 <= k < t.len() ==> (#[trigger] t[k]).desired == 0,
        0 <= i <= j < t.len(),
    ensures
        t[j].count <= t[i].count,
    decreases j - i,
{
    if i < j {
        lemma_drained_pair(t, i, j - 1);
        assert(pool_step(t[j - 1], t[j - 1 + 1]));
        assert(pool_step(t[j - 1], t[j]));
        assert(t[j - 1].desired == 0);
        assert(!claim_step(t[j - 1], t[j]));
    }
}

/// Law: shutdown convergence.
///
/// Once any unit of work has set the target to zero, no slot is ever
/// claimed again — the target stays at zero through every later transition
/// — and the claimed count never rises: the pool drains monotonically to
/// zero as the running units finish and release their slots.
pub proof fn lemma_shutdown_convergence(t: Seq<PoolState>)
    requires
        t.len() > 0,
        evolution(t),
        t[0].desired == 0,
    ensures
        forall|i: int| 0 <= i < t.len() ==> (#[trigger] t[i]).desired == 0,
        forall|i: int, j: int| 0 <= i <= j < t.len() ==> (#[trigger] t[j]).count <= (
        #[trigger] t[i]).count,
{
    lemma_target_stays_zero(t);
    assert forall|i: int, j: int| 0 <= i <= j < t.len() implies (#[trigger] t[j]).count <= (
    #[trigger] t[i]).count by {
        lemma_drained_pair(t, i, j);
    }
}

} // verus!
