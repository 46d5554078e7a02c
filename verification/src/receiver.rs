//! The receiving session: one accepted connection's consumer and sampler,
//! and the orchestration that wires them together.

use vstd::prelude::*;

use crate::measurement::{chronological, Measurement, MeasurementSet};
use crate::measurer::Measurer;
use crate::reader::{Reader, StreamError};
use crate::session::SessionPhase;

verus! {

/// Configuration of a receiving session, copied into each session.
#[derive(Debug, Clone, Copy)]
pub struct ReceiverConfig {
    /// Measurement period, in nanoseconds.
    pub freq_nanos: u64,
    /// Bytes per chunk.
    pub chunk_size: usize,
    /// Whether to echo every chunk back to its sender.
    pub echo: bool,
}

/// The per-connection orchestrator on the receiving side. It owns the
/// session's counter pair: each concurrent connection gets its own.
pub struct Receiver {
    /// Configuration values.
    pub config: ReceiverConfig,
    /// Where the session stands in its lifecycle.
    pub phase: SessionPhase,
    /// Counter for chunks sent (echoed back); stays zero with echo off.
    pub sent: u64,
    /// Counter for chunks received.
    pub received: u64,
}

impl Receiver {
    /// A fresh session for one accepted connection.
    pub fn new(config: ReceiverConfig) -> (r: Receiver)
        ensures
            r.config == config,
            r.phase is Idle,
            r.sent == 0,
            r.received == 0,
    {
        Receiver { config, phase: SessionPhase::Idle, sent: 0, received: 0 }
    }

    /// Start the consumer and the sampler concurrently.
    pub fn start(&mut self)
        requires
            old(self).phase is Idle,
        ensures
            *final(self) == (Receiver { phase: SessionPhase::Running, ..*old(self) }),
    {
        self.phase = SessionPhase::Running;
    }

    /// The consumer finished (the peer closed the stream, or a fatal error
    /// ended the read loop): the data-transfer phase is over, and the stop
    /// signal may now — and only now — be sent to the sampler.
    pub fn reading_done(&mut self)
        requires
            old(self).phase is Running,
        ensures
            *final(self) == (Receiver { phase: SessionPhase::Draining, ..*old(self) }),
    {
        self.phase = SessionPhase::Draining;
    }

    /// Reconcile the consumer's outcome with the sampler's series: a fatal
    /// read error is propagated, otherwise the completed series is returned.
    pub fn finish(&mut self, read_res: Result<(), StreamError>, mset: MeasurementSet) -> (r:
        Result<MeasurementSet, StreamError>)
        requires
            old(self).phase is Draining,
        ensures
            *final(self) == (Receiver { phase: SessionPhase::Completed, ..*old(self) }),
            match read_res {
                Ok(()) => r matches Ok(m) && m == mset,
                Err(e) => r == Err::<MeasurementSet, StreamError>(e),
            },
    {
        self.phase = SessionPhase::Completed;
        match read_res {
            Ok(()) => Ok(mset),
            Err(err) => Err(err),
        }
    }

    /// One whole receiving session, run against a stream that delivers
    /// `delivered` and then fails with `terminal`, the sampler's timer
    /// having delivered the snapshots of `ticks` before the stop signal:
    /// consumer and sampler are started together, the consumer counts (and,
    /// with echo on, echoes) every whole chunk until the stream ends, the
    /// sampler is then stopped, and the consumer's outcome is reconciled
    /// with the collected series.
    pub fn run(&mut self, delivered: &Vec<u8>, terminal: StreamError, ticks: &Vec<Measurement>)
        -> (r: Result<MeasurementSet, StreamError>)
        requires
            old(self).phase is Idle,
            old(self).config.chunk_size > 0,
            chronological(ticks@),
        ensures
            final(self).phase is Completed,
            final(self).config == old(self).config,
            final(self).received == delivered@.len() as int
                / old(self).config.chunk_size as int,
            final(self).sent == if old(self).config.echo {
                delivered@.len() as int / old(self).config.chunk_size as int
            } else {
                0
            },
            terminal.is_graceful() ==> (r matches Ok(m) && m@ == ticks@),
            !terminal.is_graceful() ==> r == Err::<MeasurementSet, StreamError>(terminal),
    {
        self.start();

        let (mut measurer, mut stopper) = Measurer::new(self.config.freq_nanos);
        let mut reader = Reader::new(self.config);

        let nlen = delivered.len();
        proof {
            let n = nlen as int;
            let cs = self.config.chunk_size as int;
            assert(n / cs <= n) by (nonlinear_arith)
                requires
                    cs >= 1,
                    n >= 0,
            ;
        }
        let (read_res, _echoed) = reader.run(delivered, terminal);
        self.received = reader.received_count();
        self.sent = reader.sent_count();

        self.reading_done();
        stopper.stop();
        let mset = measurer.run(ticks);

        self.finish(read_res, mset)
    }
}

} // verus!
