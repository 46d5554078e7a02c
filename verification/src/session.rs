//! The lifecycle of one measurement session.
//!
//! Both roles drive the same protocol: data task(s) and the sampler run
//! concurrently; once the data-transfer phase ends the sampler is told to
//! stop; the session completes when the final series has been collected and
//! reconciled with the data tasks' outcomes.

use vstd::prelude::*;

verus! {

/// The phase of one session, in the order the orchestrator moves through
/// them. The stop signal for the sampler is sent at the transition into
/// `Draining`, so it is sent only after the data-transfer phase has fully
/// completed.
#[derive(Debug, Clone, Copy, PartialEq, Eq, Structural)]
pub enum SessionPhase {
    /// Created, nothing started yet.
    Idle,
    /// Data task(s) and sampler concurrently active.
    Running,
    /// Data tasks finished, stop signal sent, awaiting the sampler's series.
    Draining,
    /// Terminal: the series has been collected, successfully or alongside a
    /// fatal data-task error.
    Completed,
}

} // verus!
