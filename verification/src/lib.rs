//! A self-balancing pool of concurrent units of work.
//!
//! The pool keeps a target number of independent units of work running at
//! once.  Callers supply a factory that manufactures units and the units
//! themselves; the library owns only the bookkeeping: how many slots are
//! claimed, and when a replacement may be started.
//!
//! The verified core is a sentinel holding two counters, the desired
//! concurrency level and the number of claimed slots, together with the
//! balancing rule: claim slots while below target, give one back when a unit
//! ends, and refill unless the pool has been wound down.  Starting each unit
//! on its own thread of execution is left to the embedding program, which
//! drives the sentinel one transition at a time.
//!
//! An embedding that shares one sentinel across threads must serialize its
//! transitions — the bundled runner holds a mutex around each call — rather
//! than race compare-and-swap claims against a bare atomic counter.  The
//! transition laws are stated over arbitrary interleavings of the
//! transitions, so the accounting guarantees do not depend on which thread
//! drives which step.

mod laws;
mod pool;
mod state;
mod work;

pub use laws::{bounded_by, lemma_level_bounded, lemma_no_double_counting,
    lemma_shutdown_convergence};
pub use pool::{spawn, Baton, Sentinel};
pub use state::{churn_evolution, churn_step, claim_step, evolution, pool_step, release_step,
    shutdown_step, PoolState};
pub use work::{Outcome, Work, WorkFactory};
