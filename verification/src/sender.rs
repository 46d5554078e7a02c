//! The sending session: the generator that streams random chunks until its
//! deadline, and the orchestration that wires it to the echo consumer and
//! the sampler.
//!
//! The socket writes and the clock live outside the library: the generator's
//! loop is verified against the sequence of elapsed-clock readings it
//! observes, with every write accepted (a discard sink). Chunk payloads are
//! drawn from the thread-local random generator through trusted wrappers.

use vstd::prelude::*;

use crate::measurement::{chronological, Measurement, MeasurementSet};
use crate::measurer::Measurer;
use crate::reader::{SimpleReader, StreamError};
use crate::session::SessionPhase;

verus! {

/// Configuration of a sending session, copied into each session.
#[derive(Debug)]
pub struct SenderConfig {
    /// Address of the peer to connect to.
    pub addr: String,
    /// Measurement period, in nanoseconds.
    pub freq_nanos: u64,
    /// Total wall-clock transfer time, in nanoseconds.
    pub length_nanos: u64,
    /// Bytes per chunk.
    pub chunk_size: usize,
}

/// Declares rand's thread-local generator handle so that the wrappers below
/// can hold and pass one; the library never looks inside it.
#[verifier::external_type_specification]
#[verifier::external_body]
pub struct ExThreadRng(rand::rngs::ThreadRng);

/// Relies on rand::thread_rng: hands out the thread-local random generator
/// (it panics only if the operating system cannot seed it at first use).
#[verifier::external_body]
fn new_rng() -> rand::rngs::ThreadRng {
    rand::thread_rng()
}

/// Relies on rand::RngCore::fill_bytes for ThreadRng: overwrites every byte
/// of the slice with random data; the buffer's length cannot change.
#[verifier::external_body]
fn fill_random(rng: &mut rand::rngs::ThreadRng, buf: &mut Vec<u8>)
    ensures
        final(buf)@.len() == old(buf)@.len(),
{
    rand::RngCore::fill_bytes(rng, buf.as_mut_slice())
}

/// A buffer of `chunk_size` zero bytes.
fn zero_chunk(chunk_size: usize) -> (buf: Vec<u8>)
    ensures
        buf@.len() == chunk_size,
{
    let mut buf: Vec<u8> = Vec::new();
    while buf.len() < chunk_size
        invariant
            buf@.len() <= chunk_size,
        decreases chunk_size - buf@.len(),
    {
        buf.push(0u8);
    }
    buf
}

/// How many chunks the generator's loop sends when it observes the elapsed
/// clock readings of `readings`, one at the top of each iteration, against a
/// run duration of `length_nanos`: one chunk per reading strictly before the
/// deadline, stopping at the first reading at or past it (or when the
/// readings run out — a real clock eventually passes any deadline).
pub open spec fn chunks_before_deadline(readings: Seq<u64>, length_nanos: u64) -> nat
    decreases readings.len(),
{
    if readings.len() == 0 {
        0
    } else if readings[0] >= length_nanos {
        0
    } else {
        1 + chunks_before_deadline(readings.skip(1), length_nanos)
    }
}

/// The generator never sends more chunks than it saw clock readings.
pub proof fn lemma_chunks_at_most_readings(readings: Seq<u64>, length_nanos: u64)
    ensures
        chunks_before_deadline(readings, length_nanos) <= readings.len(),
    decreases readings.len(),
{
    if readings.len() > 0 && readings[0] < length_nanos {
        lemma_chunks_at_most_readings(readings.skip(1), length_nanos);
    }
}

/// The sent count never decreases as the run advances: after observing more
/// of the clock readings the generator has sent at least as many chunks as
/// after fewer of them.
pub proof fn lemma_sent_monotone(readings: Seq<u64>, length_nanos: u64, i: int, j: int)
    requires
        0 <= i <= j <= readings.len(),
    ensures
        chunks_before_deadline(readings.take(i), length_nanos) <= chunks_before_deadline(
            readings.take(j),
            length_nanos,
        ),
    decreases i,
{
    if i == 0 {
        assert(readings.take(0) =~= Seq::<u64>::empty());
    } else {
        assert(readings.take(i)[0] == readings[0]);
        assert(readings.take(j)[0] == readings[0]);
        if readings[0] < length_nanos {
            assert(readings.take(i).skip(1) =~= readings.skip(1).take(i - 1));
            assert(readings.take(j).skip(1) =~= readings.skip(1).take(j - 1));
            lemma_sent_monotone(readings.skip(1), length_nanos, i - 1, j - 1);
        }
    }
}

/// A run duration of zero sends no chunks at all: every clock reading is
/// already at or past the deadline.
pub proof fn lemma_zero_duration_sends_nothing(readings: Seq<u64>)
    ensures
        chunks_before_deadline(readings, 0) == 0,
{
}

/// The count the generator reaches on an idealized clock that advances by
/// exactly `tpc` nanoseconds per chunk: with the reading before chunk `k`
/// standing at `(base + k) * tpc`, the run sends one chunk per tick strictly
/// before the deadline — the `base` ticks already behind it short of
/// `length_nanos / tpc`, rounded up, and never more than the readings on
/// hand.
pub proof fn lemma_uniform_schedule_count(
    readings: Seq<u64>,
    tpc: u64,
    base: int,
    length_nanos: u64,
)
    requires
        tpc > 0,
        base >= 0,
        forall|i: int| 0 <= i < readings.len() ==> #[trigger] readings[i] == (base + i) * tpc,
    ensures
        ({
            let ceil = (length_nanos + tpc - 1) / (tpc as int);
            chunks_before_deadline(readings, length_nanos) == if ceil - base <= 0 {
                0
            } else if ceil - base <= readings.len() {
                ceil - base
            } else {
                readings.len() as int
            }
        }),
    decreases readings.len(),
{
    let ceil = (length_nanos + tpc - 1) / (tpc as int);
    if readings.len() > 0 {
        assert(readings[0] == base * tpc);
        if readings[0] >= length_nanos {
            assert(ceil <= base) by (nonlinear_arith)
                requires
                    tpc > 0,
                    base >= 0,
                    base * tpc >= length_nanos,
                    ceil == (length_nanos + tpc - 1) / (tpc as int),
            ;
        } else {
            assert(base + 1 <= ceil) by (nonlinear_arith)
                requires
                    tpc > 0,
                    base >= 0,
                    base * tpc < length_nanos,
                    ceil == (length_nanos + tpc - 1) / (tpc as int),
            ;
            let tail = readings.skip(1);
            assert forall|i: int| 0 <= i < tail.len() implies #[trigger] tail[i] == (base + 1 + i)
                * tpc by {
                assert(readings[i + 1] == (base + (i + 1)) * tpc);
            };
            lemma_uniform_schedule_count(tail, tpc, base + 1, length_nanos);
        }
    }
}

/// Generate random data and send it over the wire, one chunk per loop
/// iteration, until the configured duration has elapsed.
pub struct Generator {
    /// Total run duration, in nanoseconds.
    pub length_nanos: u64,
    /// Bytes per chunk.
    pub chunk_size: usize,
    /// Counter for chunks sent.
    pub sent: u64,
}

impl Generator {
    /// A generator that will send `chunk_size`-byte chunks for
    /// `length_nanos`, with nothing sent yet.
    pub fn new(length_nanos: u64, chunk_size: usize) -> (g: Generator)
        ensures
            g.length_nanos == length_nanos,
            g.chunk_size == chunk_size,
            g.sent == 0,
    {
        Generator { length_nanos, chunk_size, sent: 0 }
    }

    /// The loop's termination test: the run ends at the first clock reading
    /// at or past the configured duration.
    pub fn deadline_passed(&self, elapsed_nanos: u64) -> (r: bool)
        ensures
            r == (elapsed_nanos >= self.length_nanos),
    {
        elapsed_nanos >= self.length_nanos
    }

    /// A fresh chunk of random payload bytes.
    pub fn make_chunk(&self) -> (buf: Vec<u8>)
        ensures
            buf@.len() == self.chunk_size,
    {
        let mut rng = new_rng();
        let mut buf = zero_chunk(self.chunk_size);
        fill_random(&mut rng, &mut buf);
        buf
    }

    /// Count one chunk whose write the transport confirmed in full.
    pub fn on_sent(&mut self)
        requires
            old(self).sent < u64::MAX,
        ensures
            final(self).sent == old(self).sent + 1,
            final(self).length_nanos == old(self).length_nanos,
            final(self).chunk_size == old(self).chunk_size,
    {
        self.sent = self.sent + 1;
    }

    /// The generator's loop, run against a discard sink that accepts every
    /// write: at the top of each iteration it observes the next elapsed
    /// clock reading, stops at the first one at or past the deadline, and
    /// otherwise fills the buffer with fresh random bytes (never resending
    /// stale data), hands it to the sink, and counts it as sent.
    pub fn run(&mut self, elapsed_readings: &Vec<u64>)
        requires
            old(self).sent + elapsed_readings@.len() <= u64::MAX,
        ensures
            final(self).length_nanos == old(self).length_nanos,
            final(self).chunk_size == old(self).chunk_size,
            final(self).sent == old(self).sent + chunks_before_deadline(
                elapsed_readings@,
                old(self).length_nanos,
            ),
            final(self).sent >= old(self).sent,
    {
        let ghost sent0 = self.sent;
        let ghost len_n = self.length_nanos;
        let n = elapsed_readings.len();
        let mut rng = new_rng();
        let mut buf = zero_chunk(self.chunk_size);
        let mut k: usize = 0;
        proof {
            assert(elapsed_readings@.skip(0) =~= elapsed_readings@);
        }
        while k < n
            invariant
                sent0 == old(self).sent,
                len_n == old(self).length_nanos,
                self.length_nanos == len_n,
                self.chunk_size == old(self).chunk_size,
                n == elapsed_readings@.len(),
                k <= n,
                sent0 + n <= u64::MAX,
                self.sent == sent0 + k,
                buf@.len() == self.chunk_size,
                k + chunks_before_deadline(elapsed_readings@.skip(k as int), len_n)
                    == chunks_before_deadline(elapsed_readings@, len_n),
            ensures
                self.length_nanos == len_n,
                self.chunk_size == old(self).chunk_size,
                self.sent == sent0 + chunks_before_deadline(elapsed_readings@, len_n),
            decreases n - k,
        {
            let elapsed = elapsed_readings[k];
            proof {
                assert(elapsed_readings@.skip(k as int)[0] == elapsed_readings@[k as int]);
            }
            if self.deadline_passed(elapsed) {
                break;
            }
            proof {
                assert(elapsed_readings@.skip(k as int).skip(1) =~= elapsed_readings@.skip(
                    k as int + 1,
                ));
            }
            // Regenerate the payload: the buffer is refilled, not reused as-is.
            fill_random(&mut rng, &mut buf);
            // The discard sink accepts the whole buffer; count the chunk.
            self.on_sent();
            k = k + 1;
        }
    }
}

/// The client-side orchestrator of one sending session: generator, echo
/// consumer and sampler run concurrently over one connection, and their
/// outcomes are reconciled into the session's result. It owns the session's
/// counter pair, never reused across sessions.
pub struct Sender {
    /// Configuration values.
    pub config: SenderConfig,
    /// Where the session stands in its lifecycle.
    pub phase: SessionPhase,
    /// Counter for chunks sent.
    pub sent: u64,
    /// Counter for chunks received (echoed back by the peer).
    pub received: u64,
}

impl Sender {
    /// A fresh sending session.
    pub fn new(config: SenderConfig) -> (s: Sender)
        ensures
            s.config == config,
            s.phase is Idle,
            s.sent == 0,
            s.received == 0,
    {
        Sender { config, phase: SessionPhase::Idle, sent: 0, received: 0 }
    }

    /// Start the sampler, the consumer of echoed chunks, and the generator
    /// concurrently.
    pub fn start(&mut self)
        requires
            old(self).phase is Idle,
        ensures
            *final(self) == (Sender { phase: SessionPhase::Running, ..*old(self) }),
    {
        self.phase = SessionPhase::Running;
    }

    /// The generator reached its deadline and the consumer's read loop
    /// ended: the data-transfer phase is over, and the stop signal may now —
    /// and only now — be sent to the sampler.
    pub fn data_phase_done(&mut self)
        requires
            old(self).phase is Running,
        ensures
            *final(self) == (Sender { phase: SessionPhase::Draining, ..*old(self) }),
    {
        self.phase = SessionPhase::Draining;
    }

    /// Reconcile the generator's and the consumer's outcomes with the
    /// sampler's series: a fatal write error is propagated first, then a
    /// fatal read error, otherwise the completed series is returned.
    pub fn finish(
        &mut self,
        write_res: Result<(), StreamError>,
        read_res: Result<(), StreamError>,
        mset: MeasurementSet,
    ) -> (r: Result<MeasurementSet, StreamError>)
        requires
            old(self).phase is Draining,
        ensures
            *final(self) == (Sender { phase: SessionPhase::Completed, ..*old(self) }),
            match (write_res, read_res) {
                (Err(e), _) => r == Err::<MeasurementSet, StreamError>(e),
                (Ok(()), Err(e)) => r == Err::<MeasurementSet, StreamError>(e),
                (Ok(()), Ok(())) => r matches Ok(m) && m == mset,
            },
    {
        self.phase = SessionPhase::Completed;
        match write_res {
            Err(err) => Err(err),
            Ok(()) => match read_res {
                Err(err) => Err(err),
                Ok(()) => Ok(mset),
            },
        }
    }

    /// One whole sending session, run with the generator against a discard
    /// sink (it observes the elapsed clock readings of `elapsed_readings`
    /// and every write is accepted), the echo consumer against a return
    /// stream that delivers `echoed_delivered` and then fails with
    /// `terminal`, and the sampler's timer having delivered the snapshots of
    /// `ticks` before the stop signal. The three run concurrently; the
    /// data-transfer phase ends when generator and consumer have both
    /// finished, the sampler is then stopped, and the outcomes are
    /// reconciled with the collected series.
    pub fn run(
        &mut self,
        elapsed_readings: &Vec<u64>,
        echoed_delivered: &Vec<u8>,
        terminal: StreamError,
        ticks: &Vec<Measurement>,
    ) -> (r: Result<MeasurementSet, StreamError>)
        requires
            old(self).phase is Idle,
            old(self).config.chunk_size > 0,
            chronological(ticks@),
        ensures
            final(self).phase is Completed,
            final(self).config == old(self).config,
            final(self).sent == chunks_before_deadline(
                elapsed_readings@,
                old(self).config.length_nanos,
            ),
            final(self).received == echoed_delivered@.len() as int
                / old(self).config.chunk_size as int,
            terminal.is_graceful() ==> (r matches Ok(m) && m@ == ticks@),
            !terminal.is_graceful() ==> r == Err::<MeasurementSet, StreamError>(terminal),
    {
        self.start();

        let (mut measurer, mut stopper) = Measurer::new(self.config.freq_nanos);
        let mut reader = SimpleReader::new(self.config.chunk_size);
        let mut generator = Generator::new(self.config.length_nanos, self.config.chunk_size);

        let readings_len = elapsed_readings.len();
        generator.run(elapsed_readings);

        let nlen = echoed_delivered.len();
        proof {
            let n = nlen as int;
            let cs = self.config.chunk_size as int;
            assert(n / cs <= n) by (nonlinear_arith)
                requires
                    cs >= 1,
                    n >= 0,
            ;
        }
        let read_res = reader.run(echoed_delivered, terminal);
        self.sent = generator.sent;
        self.received = reader.received;

        self.data_phase_done();
        stopper.stop();
        let mset = measurer.run(ticks);

        // The discard sink accepted every write, so the generator succeeded.
        self.finish(Ok(()), read_res, mset)
    }
}

} // verus!
