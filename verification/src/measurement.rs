//! Measurements of a session's progress: timestamped snapshots of the two
//! chunk counters, and the ordered series the sampler accumulates.

use vstd::prelude::*;

verus! {

/// A point-in-time snapshot of one session's counters.
///
/// Immutable once recorded.
#[derive(Debug, Clone, Copy, PartialEq, Eq, Structural)]
pub struct Measurement {
    /// Time offset, in nanoseconds, since the beginning of the measurement set.
    pub dt_nanos: u64,
    /// Number of chunks sent so far.
    pub sent: u64,
    /// Number of chunks received so far.
    pub received: u64,
}

impl Measurement {
    /// Record a snapshot taken `dt_nanos` after the start of the session.
    pub fn new(dt_nanos: u64, sent: u64, received: u64) -> (m: Measurement)
        ensures
            m.dt_nanos == dt_nanos,
            m.sent == sent,
            m.received == received,
    {
        Measurement { dt_nanos, sent, received }
    }
}

/// The ordered series of snapshots taken over one session.
///
/// Appended to only by the sampler; chronological order is significant.
pub struct MeasurementSet {
    pub measurements: Vec<Measurement>,
}

impl View for MeasurementSet {
    type V = Seq<Measurement>;

    open spec fn view(&self) -> Seq<Measurement> {
        self.measurements@
    }
}

/// Chronological order of a snapshot sequence: offsets strictly increase, and
/// each counter is monotonically non-decreasing, since every snapshot reads
/// counters that only ever grow during a session.
pub open spec fn chronological(s: Seq<Measurement>) -> bool {
    forall|i: int, j: int|
        0 <= i < j < s.len() ==> {
            &&& #[trigger] s[i].dt_nanos < #[trigger] s[j].dt_nanos
            &&& s[i].sent <= s[j].sent
            &&& s[i].received <= s[j].received
        }
}

impl MeasurementSet {
    /// Chronological well-formedness of the recorded series.
    pub open spec fn wf(&self) -> bool {
        chronological(self@)
    }

    /// An empty series.
    pub fn new() -> (s: MeasurementSet)
        ensures
            s@ =~= Seq::<Measurement>::empty(),
            s.wf(),
    {
        MeasurementSet { measurements: Vec::new() }
    }

    /// Number of snapshots recorded so far.
    pub fn len(&self) -> (n: usize)
        ensures
            n == self@.len(),
    {
        self.measurements.len()
    }

    /// Append a snapshot taken `dt_nanos` after session start, when the
    /// counters read `sent` and `received`. Later snapshots come strictly
    /// later and read counters at least as large.
    pub fn record(&mut self, dt_nanos: u64, sent: u64, received: u64)
        requires
            old(self).wf(),
            old(self)@.len() > 0 ==> {
                &&& dt_nanos > old(self)@.last().dt_nanos
                &&& sent >= old(self)@.last().sent
                &&& received >= old(self)@.last().received
            },
        ensures
            final(self)@ == old(self)@.push(Measurement { dt_nanos, sent, received }),
            final(self).wf(),
    {
        let measurement = Measurement::new(dt_nanos, sent, received);
        self.measurements.push(measurement);
    }

    /// The sent-counter column of the series.
    pub fn sent(&self) -> (r: Vec<u64>)
        ensures
            r@.len() == self@.len(),
            forall|i: int| 0 <= i < self@.len() ==> r@[i] == self@[i].sent,
    {
        let mut r: Vec<u64> = Vec::new();
        let n = self.measurements.len();
        let mut k: usize = 0;
        while k < n
            invariant
                n == self@.len(),
                k <= n,
                r@.len() == k,
                forall|i: int| 0 <= i < k ==> r@[i] == self@[i].sent,
            decreases n - k,
        {
            r.push(self.measurements[k].sent);
            k = k + 1;
        }
        r
    }

    /// The received-counter column of the series.
    pub fn received(&self) -> (r: Vec<u64>)
        ensures
            r@.len() == self@.len(),
            forall|i: int| 0 <= i < self@.len() ==> r@[i] == self@[i].received,
    {
        let mut r: Vec<u64> = Vec::new();
        let n = self.measurements.len();
        let mut k: usize = 0;
        while k < n
            invariant
                n == self@.len(),
                k <= n,
                r@.len() == k,
                forall|i: int| 0 <= i < k ==> r@[i] == self@[i].received,
            decreases n - k,
        {
            r.push(self.measurements[k].received);
            k = k + 1;
        }
        r
    }
}

impl Default for MeasurementSet {
    /// An empty series.
    fn default() -> (s: MeasurementSet)
        ensures
            s@ =~= Seq::<Measurement>::empty(),
            s.wf(),
    {
        MeasurementSet::new()
    }
}

/// In a well-formed series the time offsets are strictly increasing: every
/// earlier snapshot was taken strictly before every later one.
pub proof fn lemma_offsets_strictly_increasing(ms: &MeasurementSet, i: int, j: int)
    requires
        ms.wf(),
        0 <= i < j < ms@.len(),
    ensures
        ms@[i].dt_nanos < ms@[j].dt_nanos,
{
}

/// In a well-formed series no snapshot's counts exceed the final snapshot's
/// counts: the last recorded counts bound the whole series.
pub proof fn lemma_counts_bounded_by_final(ms: &MeasurementSet, i: int)
    requires
        ms.wf(),
        0 <= i < ms@.len(),
    ensures
        ms@[i].sent <= ms@.last().sent,
        ms@[i].received <= ms@.last().received,
{
    if i < ms@.len() - 1 {
        assert(ms@[i].dt_nanos < ms@[ms@.len() - 1].dt_nanos);
    }
}

} // verus!
