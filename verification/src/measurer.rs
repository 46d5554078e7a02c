//! The sampler: measures the session's counters periodically, stopping when
//! a one-shot signal is given.
//!
//! The timer and the task scheduling live outside the library; each timer
//! tick hands the sampler a snapshot of the elapsed clock and the two
//! counters, and the accumulated series is returned when the stop signal
//! ends the loop.

use vstd::prelude::*;

use crate::measurement::{chronological, Measurement, MeasurementSet};

verus! {

/// Measures a counter pair periodically, stopping when a signal is given.
pub struct Measurer {
    /// Measurement period, in nanoseconds.
    pub freq_nanos: u64,
}

/// The sending side of the sampler's one-shot stop signal.
///
/// Stopping is idempotent: signaling twice, or after the sampler has already
/// returned for any reason, is a no-op, never an error. `stop` has no
/// precondition, so it can be called in any state and never panics.
pub struct MeasurerStopper {
    /// Whether the stop signal has been sent at least once.
    pub stopped: bool,
}

impl MeasurerStopper {
    /// The state after the stop signal is sent, whatever the state before.
    pub open spec fn spec_stop(self) -> MeasurerStopper {
        MeasurerStopper { stopped: true }
    }

    /// Send the stop signal. A signal that was already sent, or a sampler
    /// that has already hung up, makes this a no-op.
    pub fn stop(&mut self)
        ensures
            *final(self) == old(self).spec_stop(),
            final(self).stopped,
    {
        self.stopped = true;
    }
}

/// Sending the stop signal twice leaves the stopper exactly where one send
/// leaves it: stopping is idempotent.
pub proof fn lemma_stop_idempotent(s: MeasurerStopper)
    ensures
        s.spec_stop().spec_stop() == s.spec_stop(),
{
}

impl Measurer {
    /// A sampler with period `freq_nanos`, paired with the one-shot stopper
    /// that ends its run.
    pub fn new(freq_nanos: u64) -> (r: (Measurer, MeasurerStopper))
        ensures
            r.0.freq_nanos == freq_nanos,
            !r.1.stopped,
    {
        (Measurer { freq_nanos }, MeasurerStopper { stopped: false })
    }

    /// The sampling loop: record one snapshot per timer tick until the stop
    /// signal arrives, then return the accumulated series. `ticks` holds the
    /// snapshots the timer delivered before the stop signal won the race; the
    /// timer fires at a fixed period and the counters only grow, so the
    /// snapshots arrive in chronological order. No extra snapshot is taken at
    /// stop time.
    pub fn run(&mut self, ticks: &Vec<Measurement>) -> (mset: MeasurementSet)
        requires
            chronological(ticks@),
        ensures
            mset@ == ticks@,
            mset.wf(),
            *final(self) == *old(self),
    {
        let mut mset = MeasurementSet::new();
        let n = ticks.len();
        let mut k: usize = 0;
        while k < n
            invariant
                n == ticks@.len(),
                k <= n,
                chronological(ticks@),
                mset@ =~= ticks@.take(k as int),
                mset.wf(),
            decreases n - k,
        {
            let t = ticks[k];
            mset.record(t.dt_nanos, t.sent, t.received);
            k = k + 1;
        }
        proof {
            assert(mset@ =~= ticks@);
        }
        mset
    }
}

} // verus!
