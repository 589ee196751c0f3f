use vstd::prelude::*;

verus! {

/// What a finished unit of work asks of the pool.
///
/// A unit that wants to keep computing simply has not returned yet: its
/// internal looping, blocking or sleeping is invisible to the pool.  The
/// outcome is the one decision the pool acts on once the unit is done.
#[derive(Clone, Copy, Debug, PartialEq, Eq, Structural)]
pub enum Outcome {
    /// The slot becomes refillable: while the pool is below its target, a
    /// freshly built unit takes the slot over.
    Refill,
    /// The whole pool winds down: the target drops to zero, no further slot
    /// is ever claimed, and the pool drains as running units finish.
    Shutdown,
}

/// One unit of execution.  It runs to completion exactly once and decides,
/// at the point it has finished its task, what becomes of its slot.
pub trait Work: Sized {
    /// Runs the unit to completion, consuming it.
    fn work(self) -> Outcome;
}

/// A capability that manufactures one new unit of work on demand.
///
/// `build_pre` names the condition under which the factory may be asked to
/// build, and `build_post` names what holds of every unit it hands out; a
/// factory written as a plain type usually has no precondition.  Any
/// zero-argument callable that produces a unit of work satisfies this trait
/// with no wrapping, through the blanket implementation below.
pub trait WorkFactory: Sized {
    type Work: Work;

    /// When `build` may be called.
    spec fn build_pre(&self) -> bool;

    /// What holds of a unit this factory built.
    spec fn build_post(&self, w: Self::Work) -> bool;

    /// Produces one new unit of work.
    fn build(&self) -> (w: Self::Work)
        requires
            self.build_pre(),
        ensures
            self.build_post(w),
    ;
}

impl<W: Work, F: Fn() -> W> WorkFactory for F {
    type Work = W;

    open spec fn build_pre(&self) -> bool {
        call_requires(*self, ())
    }

    /// The adapter hands the closure's own product back unchanged, so a
    /// built unit is exactly something the closure can return.
    open spec fn build_post(&self, w: W) -> bool {
        call_ensures(*self, (), w)
    }

    fn build(&self) -> W {
        self()
    }
}

} // verus!
