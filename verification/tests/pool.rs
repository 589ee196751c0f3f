use std::cell::Cell;
use std::rc::Rc;

use worker_pool::{spawn, Outcome, Sentinel, Work};

/// A unit of work that ends at once and leaves its slot refillable.
struct Idler;

impl Work for Idler {
    fn work(self) -> Outcome {
        Outcome::Refill
    }
}

/// A unit of work that counts its completion on a shared counter and winds
/// the pool down once three completions have been recorded.
struct Finisher {
    completions: Rc<Cell<usize>>,
}

impl Work for Finisher {
    fn work(self) -> Outcome {
        let done = self.completions.get() + 1;
        self.completions.set(done);
        if done >= 3 {
            Outcome::Shutdown
        } else {
            Outcome::Refill
        }
    }
}

#[test]
fn convergence_reaches_target() {
    let (sentinel, starts) = spawn(3, || Idler);
    assert_eq!(sentinel.count(), 3);
    assert_eq!(sentinel.desired(), 3);
    assert_eq!(starts.len(), 3);
}

#[test]
fn spawn_zero_claims_nothing() {
    let (sentinel, starts) = spawn(0, || Idler);
    assert_eq!(sentinel.count(), 0);
    assert_eq!(sentinel.desired(), 0);
    assert!(starts.is_empty());
}

#[test]
fn balance_at_target_is_noop() {
    let builds = Rc::new(Cell::new(0usize));
    let tally = builds.clone();
    let (mut sentinel, starts) = spawn(2, move || {
        tally.set(tally.get() + 1);
        Idler
    });
    assert_eq!(starts.len(), 2);
    assert_eq!(builds.get(), 2);

    let more = sentinel.balance();
    assert!(more.is_empty());
    assert_eq!(sentinel.count(), 2);
    assert_eq!(sentinel.desired(), 2);
    assert_eq!(builds.get(), 2);

    assert!(sentinel.try_claim().is_none());
    assert_eq!(sentinel.count(), 2);
}

#[test]
fn claims_succeed_only_below_target() {
    let mut sentinel = Sentinel::new(2, || Idler);
    assert_eq!(sentinel.count(), 0);
    assert!(sentinel.try_claim().is_some());
    assert!(sentinel.try_claim().is_some());
    assert_eq!(sentinel.count(), 2);
    assert!(sentinel.try_claim().is_none());
    assert_eq!(sentinel.count(), 2);
}

#[test]
fn replacement_after_slot_lost() {
    let builds = Rc::new(Cell::new(0usize));
    let tally = builds.clone();
    let (mut sentinel, mut starts) = spawn(5, move || {
        tally.set(tally.get() + 1);
        Idler
    });
    assert_eq!(sentinel.count(), 5);
    assert_eq!(builds.get(), 5);

    // One running unit dies: its baton comes back without an outcome, and
    // the release claims exactly one replacement.
    let (_lost_unit, baton) = starts.pop().unwrap();
    let replacements = sentinel.release(baton);
    assert_eq!(replacements.len(), 1);
    assert_eq!(sentinel.count(), 5);
    assert_eq!(builds.get(), 6);
}

#[test]
fn settle_refill_restores_target() {
    let builds = Rc::new(Cell::new(0usize));
    let tally = builds.clone();
    let (mut sentinel, mut starts) = spawn(2, move || {
        tally.set(tally.get() + 1);
        Idler
    });

    let (unit, baton) = starts.pop().unwrap();
    let outcome = unit.work();
    assert_eq!(outcome, Outcome::Refill);
    let replacements = sentinel.settle(baton, outcome);
    assert_eq!(replacements.len(), 1);
    assert_eq!(sentinel.count(), 2);
    assert_eq!(sentinel.desired(), 2);
    assert_eq!(builds.get(), 3);
}

#[test]
fn shutdown_stops_all_respawning() {
    let builds = Rc::new(Cell::new(0usize));
    let tally = builds.clone();
    let (mut sentinel, mut starts) = spawn(2, move || {
        tally.set(tally.get() + 1);
        Idler
    });

    let (_unit, baton) = starts.pop().unwrap();
    let after_shutdown = sentinel.settle(baton, Outcome::Shutdown);
    assert!(after_shutdown.is_empty());
    assert_eq!(sentinel.desired(), 0);
    assert_eq!(sentinel.count(), 1);

    // The remaining unit finishing refillable still brings no replacement.
    let (_unit, baton) = starts.pop().unwrap();
    let after_release = sentinel.settle(baton, Outcome::Refill);
    assert!(after_release.is_empty());
    assert_eq!(sentinel.count(), 0);

    let late = sentinel.balance();
    assert!(late.is_empty());
    assert_eq!(sentinel.count(), 0);
    assert_eq!(builds.get(), 2);
}

#[test]
fn scenario_three_completions_drain_pool() {
    let builds = Rc::new(Cell::new(0usize));
    let completions = Rc::new(Cell::new(0usize));
    let tally = builds.clone();
    let shared = completions.clone();
    let (mut sentinel, starts) = spawn(3, move || {
        tally.set(tally.get() + 1);
        Finisher { completions: shared.clone() }
    });
    assert_eq!(builds.get(), 3);

    // All three units run to completion before any slot is settled; the
    // third completion tips the shared counter to three.
    let mut settled: Vec<(Outcome, worker_pool::Baton)> = Vec::new();
    for (unit, baton) in starts {
        settled.push((unit.work(), baton));
    }
    assert_eq!(completions.get(), 3);
    assert!(matches!(settled[0].0, Outcome::Refill));
    assert!(matches!(settled[1].0, Outcome::Refill));
    assert!(matches!(settled[2].0, Outcome::Shutdown));

    // The unit that asked for shutdown settles first, so no slot is ever
    // refilled: exactly the three original units are built.
    while let Some((outcome, baton)) = settled.pop() {
        let replacements = sentinel.settle(baton, outcome);
        assert!(replacements.is_empty());
    }
    assert_eq!(sentinel.count(), 0);
    assert_eq!(sentinel.desired(), 0);
    assert_eq!(builds.get(), 3);

    let late = sentinel.balance();
    assert!(late.is_empty());
    assert_eq!(sentinel.count(), 0);
}

#[test]
fn count_stays_within_target_under_churn() {
    let (mut sentinel, mut starts) = spawn(4, || Idler);
    assert_eq!(sentinel.count(), 4);

    // Claims and releases hammered in sequence: the count never leaves the
    // zero-to-target interval and lost claim races change nothing.
    for _ in 0..3 {
        assert!(sentinel.try_claim().is_none());
        assert_eq!(sentinel.count(), 4);
        let (_unit, baton) = starts.pop().unwrap();
        let mut replacements = sentinel.release(baton);
        assert_eq!(replacements.len(), 1);
        assert_eq!(sentinel.count(), 4);
        starts.append(&mut replacements);
    }
    assert_eq!(starts.len(), 4);
}
