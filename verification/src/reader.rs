//! The consumer: reads the stream one whole chunk at a time, counting chunks
//! and optionally echoing each one straight back.
//!
//! The socket reads and writes themselves happen outside the library; the
//! functions here take their outcomes as values. A whole run of the loop is
//! verified against a model of the stream: the bytes it delivers before it
//! fails, and the terminal condition it fails with (a stream that the peer
//! closes ends with an end-of-file failure on the next whole-chunk read).

use vstd::prelude::*;

use crate::receiver::ReceiverConfig;

verus! {

/// Classification of a failed stream operation.
#[derive(Debug, Clone, Copy, PartialEq, Eq, Structural)]
pub enum StreamError {
    /// The stream ended before a whole chunk arrived.
    UnexpectedEof,
    /// The peer reset the connection.
    ConnectionReset,
    /// Any other I/O failure.
    Other,
}

impl StreamError {
    /// Whether this failure is the expected, graceful end of a session: the
    /// peer finished sending and closed or reset the stream.
    pub open spec fn is_graceful(self) -> bool {
        self is UnexpectedEof || self is ConnectionReset
    }
}

/// What the read loop does after one attempted chunk read.
#[derive(Debug, Clone, Copy, PartialEq, Eq)]
pub enum ReadChunkAction {
    /// Keep reading.
    Continue,
    /// Stop, reporting success (graceful stream end) or the fatal error.
    Exit(Result<(), StreamError>),
}

/// Decide what one chunk-read outcome means for the loop: success keeps it
/// going; an end-of-file or connection-reset failure is the expected end of
/// the session and exits successfully; any other failure exits fatally.
pub fn handle_read_chunk_result(res: Result<(), StreamError>) -> (action: ReadChunkAction)
    ensures
        match res {
            Ok(()) => action is Continue,
            Err(e) => action == ReadChunkAction::Exit(
                if e.is_graceful() { Ok::<(), StreamError>(()) } else { Err::<(), StreamError>(e) },
            ),
        },
{
    match res {
        Ok(()) => ReadChunkAction::Continue,
        Err(err) => match err {
            StreamError::UnexpectedEof | StreamError::ConnectionReset => {
                ReadChunkAction::Exit(Ok(()))
            },
            StreamError::Other => ReadChunkAction::Exit(Err(err)),
        },
    }
}

/// Model of one read-exactly-a-chunk step against a stream that delivers the
/// bytes of `delivered` and then fails with `terminal`: the read succeeds
/// exactly when a whole chunk lies beyond the `pos` bytes already consumed.
pub fn read_exact_step(
    delivered: &Vec<u8>,
    pos: usize,
    chunk_size: usize,
    terminal: StreamError,
) -> (outcome: Result<(), StreamError>)
    requires
        pos <= delivered@.len(),
    ensures
        outcome == if pos + chunk_size <= delivered@.len() {
            Ok::<(), StreamError>(())
        } else {
            Err::<(), StreamError>(terminal)
        },
{
    if chunk_size <= delivered.len() - pos {
        Ok(())
    } else {
        Err(terminal)
    }
}

/// The chunk arithmetic behind the read loop's count: a stream of `n` whole
/// chunks and `extra` trailing bytes short of a chunk drives the received
/// count up by exactly `n` — every whole chunk is counted, and a partial
/// chunk cut off by the stream's end never is.
pub proof fn lemma_chunk_count(n: int, chunk_size: int, extra: int)
    requires
        chunk_size > 0,
        n >= 0,
        0 <= extra < chunk_size,
    ensures
        (n * chunk_size + extra) / chunk_size == n,
{
    assert((n * chunk_size + extra) / chunk_size == n) by (nonlinear_arith)
        requires
            chunk_size > 0,
            n >= 0,
            0 <= extra < chunk_size,
    ;
}

/// Simple (non-echoing) consumer.
pub struct SimpleReader {
    /// Bytes per chunk.
    pub chunk_size: usize,
    /// Counter for whole chunks received.
    pub received: u64,
}

impl SimpleReader {
    /// A consumer for `chunk_size`-byte chunks, with nothing received yet.
    pub fn new(chunk_size: usize) -> (r: SimpleReader)
        ensures
            r.chunk_size == chunk_size,
            r.received == 0,
    {
        SimpleReader { chunk_size, received: 0 }
    }

    /// Account for one attempted chunk read: a whole chunk that arrived is
    /// counted; a failure is passed through uncounted, so a partial chunk cut
    /// off by the stream's end never increments the counter.
    pub fn read_chunk(&mut self, outcome: Result<(), StreamError>) -> (r: Result<(), StreamError>)
        requires
            outcome matches Ok(_) ==> old(self).received < u64::MAX,
        ensures
            final(self).chunk_size == old(self).chunk_size,
            match outcome {
                Ok(()) => {
                    &&& final(self).received == old(self).received + 1
                    &&& r == Ok::<(), StreamError>(())
                },
                Err(e) => {
                    &&& final(self).received == old(self).received
                    &&& r == Err::<(), StreamError>(e)
                },
            },
    {
        match outcome {
            Ok(()) => {
                self.received = self.received + 1;
                Ok(())
            },
            Err(err) => Err(err),
        }
    }

    /// The read loop, run against a stream that delivers `delivered` and then
    /// fails with `terminal`: every whole chunk is counted, a trailing
    /// partial chunk is not, and the run succeeds exactly when the terminal
    /// condition is a graceful stream end.
    pub fn run(&mut self, delivered: &Vec<u8>, terminal: StreamError) -> (r: Result<(), StreamError>)
        requires
            old(self).chunk_size > 0,
            old(self).received + delivered@.len() as int / old(self).chunk_size as int <= u64::MAX,
        ensures
            final(self).chunk_size == old(self).chunk_size,
            final(self).received == old(self).received
                + delivered@.len() as int / old(self).chunk_size as int,
            r == if terminal.is_graceful() {
                Ok::<(), StreamError>(())
            } else {
                Err::<(), StreamError>(terminal)
            },
    {
        let ghost recv0 = self.received;
        let cs = self.chunk_size;
        let n = delivered.len();
        let mut pos: usize = 0;
        loop
            invariant
                recv0 == old(self).received,
                cs == old(self).chunk_size,
                self.chunk_size == cs,
                cs > 0,
                n == delivered@.len(),
                pos <= n,
                self.received >= recv0,
                pos == (self.received - recv0) * cs,
                recv0 + n as int / cs as int <= u64::MAX,
            decreases n - pos,
        {
            let ghost q = self.received - recv0;
            let outcome = read_exact_step(delivered, pos, cs, terminal);
            proof {
                if pos + cs <= n {
                    assert(q + 1 <= n as int / cs as int) by (nonlinear_arith)
                        requires
                            cs > 0,
                            q * cs + cs <= n,
                            q >= 0,
                    ;
                } else {
                    assert(n as int / cs as int == q) by (nonlinear_arith)
                        requires
                            cs > 0,
                            q * cs == pos,
                            pos <= n,
                            n < pos + cs,
                    ;
                }
            }
            let res = self.read_chunk(outcome);
            match handle_read_chunk_result(res) {
                ReadChunkAction::Continue => {
                    proof {
                        assert((q + 1) * cs == q * cs + cs) by (nonlinear_arith);
                    }
                    pos = pos + cs;
                },
                ReadChunkAction::Exit(r) => {
                    return r;
                },
            }
        }
    }
}

/// Echoing consumer: counts every whole chunk received and writes it straight
/// back, byte for byte, counting the echo as one chunk sent.
pub struct EchoingReader {
    /// The underlying simple consumer, which owns the received counter.
    pub reader: SimpleReader,
    /// Counter for chunks sent (echoed back).
    pub sent: u64,
}

impl EchoingReader {
    /// An echoing consumer for `chunk_size`-byte chunks, with nothing
    /// received or echoed yet.
    pub fn new(chunk_size: usize) -> (r: EchoingReader)
        ensures
            r.reader.chunk_size == chunk_size,
            r.reader.received == 0,
            r.sent == 0,
    {
        EchoingReader { reader: SimpleReader::new(chunk_size), sent: 0 }
    }

    /// Account for one attempted chunk read followed by its echo write: a
    /// whole chunk that arrived is counted as received; if its echo was then
    /// written in full, it is counted as sent; a failure of either side is
    /// passed through, leaving the corresponding counter untouched.
    pub fn read_chunk(
        &mut self,
        read_outcome: Result<(), StreamError>,
        write_outcome: Result<(), StreamError>,
    ) -> (r: Result<(), StreamError>)
        requires
            read_outcome matches Ok(_) ==> old(self).reader.received < u64::MAX,
            (read_outcome matches Ok(_)) && (write_outcome matches Ok(_)) ==> old(self).sent
                < u64::MAX,
        ensures
            final(self).reader.chunk_size == old(self).reader.chunk_size,
            match read_outcome {
                Err(e) => {
                    &&& final(self).reader.received == old(self).reader.received
                    &&& final(self).sent == old(self).sent
                    &&& r == Err::<(), StreamError>(e)
                },
                Ok(()) => {
                    &&& final(self).reader.received == old(self).reader.received + 1
                    &&& match write_outcome {
                        Err(e) => {
                            &&& final(self).sent == old(self).sent
                            &&& r == Err::<(), StreamError>(e)
                        },
                        Ok(()) => {
                            &&& final(self).sent == old(self).sent + 1
                            &&& r == Ok::<(), StreamError>(())
                        },
                    }
                },
            },
    {
        let res = self.reader.read_chunk(read_outcome);
        match res {
            Err(err) => Err(err),
            Ok(()) => match write_outcome {
                Err(err) => Err(err),
                Ok(()) => {
                    self.sent = self.sent + 1;
                    Ok(())
                },
            },
        }
    }

    /// The read-and-echo loop, run against a stream that delivers `delivered`
    /// and then fails with `terminal`, with every echo write accepted: every
    /// whole chunk is counted as received and echoed back byte for byte,
    /// counting one send per echo; a trailing partial chunk is neither
    /// counted nor echoed. The echoed bytes are returned beside the result.
    pub fn run(&mut self, delivered: &Vec<u8>, terminal: StreamError) -> (out: (
        Result<(), StreamError>,
        Vec<u8>,
    ))
        requires
            old(self).reader.chunk_size > 0,
            old(self).reader.received + delivered@.len() as int / old(self).reader.chunk_size as int
                <= u64::MAX,
            old(self).sent + delivered@.len() as int / old(self).reader.chunk_size as int
                <= u64::MAX,
        ensures
            final(self).reader.chunk_size == old(self).reader.chunk_size,
            final(self).reader.received == old(self).reader.received
                + delivered@.len() as int / old(self).reader.chunk_size as int,
            final(self).sent == old(self).sent
                + delivered@.len() as int / old(self).reader.chunk_size as int,
            out.1@ == delivered@.subrange(
                0,
                (delivered@.len() as int / old(self).reader.chunk_size as int)
                    * old(self).reader.chunk_size as int,
            ),
            out.0 == if terminal.is_graceful() {
                Ok::<(), StreamError>(())
            } else {
                Err::<(), StreamError>(terminal)
            },
    {
        let ghost recv0 = self.reader.received;
        let ghost sent0 = self.sent;
        let cs = self.reader.chunk_size;
        let n = delivered.len();
        let mut echoed: Vec<u8> = Vec::new();
        let mut pos: usize = 0;
        loop
            invariant
                recv0 == old(self).reader.received,
                sent0 == old(self).sent,
                cs == old(self).reader.chunk_size,
                self.reader.chunk_size == cs,
                cs > 0,
                n == delivered@.len(),
                pos <= n,
                self.reader.received >= recv0,
                pos == (self.reader.received - recv0) * cs,
                self.sent - sent0 == self.reader.received - recv0,
                echoed@ == delivered@.subrange(0, pos as int),
                recv0 + n as int / cs as int <= u64::MAX,
                sent0 + n as int / cs as int <= u64::MAX,
            decreases n - pos,
        {
            let ghost q = self.reader.received - recv0;
            let read_outcome = read_exact_step(delivered, pos, cs, terminal);
            proof {
                if pos + cs <= n {
                    assert(q + 1 <= n as int / cs as int) by (nonlinear_arith)
                        requires
                            cs > 0,
                            q * cs + cs <= n,
                            q >= 0,
                    ;
                } else {
                    assert(n as int / cs as int == q) by (nonlinear_arith)
                        requires
                            cs > 0,
                            q * cs == pos,
                            pos <= n,
                            n < pos + cs,
                    ;
                }
            }
            let res = self.read_chunk(read_outcome, Ok(()));
            match handle_read_chunk_result(res) {
                ReadChunkAction::Continue => {
                    proof {
                        assert((q + 1) * cs == q * cs + cs) by (nonlinear_arith);
                    }
                    append_range(delivered, pos, cs, &mut echoed);
                    pos = pos + cs;
                },
                ReadChunkAction::Exit(r) => {
                    return (r, echoed);
                },
            }
        }
    }
}

/// Copy `len` bytes of `src`, starting at `start`, onto the end of `dst`.
fn append_range(src: &Vec<u8>, start: usize, len: usize, dst: &mut Vec<u8>)
    requires
        start + len <= src@.len(),
    ensures
        final(dst)@ == old(dst)@ + src@.subrange(start as int, start as int + len as int),
{
    let ghost dst0 = dst@;
    let n = src.len();
    let mut k: usize = 0;
    while k < len
        invariant
            n == src@.len(),
            start + len <= n,
            k <= len,
            dst@ =~= dst0 + src@.subrange(start as int, start as int + k as int),
        decreases len - k,
    {
        dst.push(src[start + k]);
        k = k + 1;
    }
    proof {
        assert(dst@ =~= dst0 + src@.subrange(start as int, start as int + len as int));
    }
}

/// The consumer of one receiving session: plain or echoing, selected once at
/// session setup from the configuration's echo flag.
pub enum Reader {
    Simple(SimpleReader),
    Echoing(EchoingReader),
}

impl Reader {
    /// Bytes per chunk.
    pub open spec fn spec_chunk_size(self) -> usize {
        match self {
            Reader::Simple(r) => r.chunk_size,
            Reader::Echoing(r) => r.reader.chunk_size,
        }
    }

    /// Whether this consumer echoes chunks back.
    pub open spec fn spec_is_echoing(self) -> bool {
        self is Echoing
    }

    /// Count of whole chunks received.
    pub open spec fn spec_received(self) -> u64 {
        match self {
            Reader::Simple(r) => r.received,
            Reader::Echoing(r) => r.reader.received,
        }
    }

    /// Count of chunks sent back. A simple consumer never sends, so its
    /// count stays zero.
    pub open spec fn spec_sent(self) -> u64 {
        match self {
            Reader::Simple(r) => 0u64,
            Reader::Echoing(r) => r.sent,
        }
    }

    /// Count of whole chunks received so far.
    pub fn received_count(&self) -> (n: u64)
        ensures
            n == self.spec_received(),
    {
        match self {
            Reader::Simple(inner) => inner.received,
            Reader::Echoing(inner) => inner.reader.received,
        }
    }

    /// Count of chunks sent back so far.
    pub fn sent_count(&self) -> (n: u64)
        ensures
            n == self.spec_sent(),
    {
        match self {
            Reader::Simple(_) => 0,
            Reader::Echoing(inner) => inner.sent,
        }
    }

    /// The consumer a receiving session's configuration asks for: echoing
    /// exactly when the echo flag is set, with nothing counted yet.
    pub fn new(config: ReceiverConfig) -> (r: Reader)
        ensures
            r.spec_is_echoing() == config.echo,
            r.spec_chunk_size() == config.chunk_size,
            r.spec_received() == 0,
            r.spec_sent() == 0,
    {
        if config.echo {
            Reader::Echoing(EchoingReader::new(config.chunk_size))
        } else {
            Reader::Simple(SimpleReader::new(config.chunk_size))
        }
    }

    /// The consumer's whole run against a stream that delivers `delivered`
    /// and then fails with `terminal`: every whole chunk is counted as
    /// received; an echoing consumer also echoes each one back byte for byte,
    /// counting one send per echo, while a simple consumer sends nothing.
    /// The run succeeds exactly when the terminal condition is a graceful
    /// stream end.
    pub fn run(&mut self, delivered: &Vec<u8>, terminal: StreamError) -> (out: (
        Result<(), StreamError>,
        Vec<u8>,
    ))
        requires
            old(self).spec_chunk_size() > 0,
            old(self).spec_received() + delivered@.len() as int / old(self).spec_chunk_size() as int
                <= u64::MAX,
            old(self).spec_sent() + delivered@.len() as int / old(self).spec_chunk_size() as int
                <= u64::MAX,
        ensures
            final(self).spec_chunk_size() == old(self).spec_chunk_size(),
            final(self).spec_is_echoing() == old(self).spec_is_echoing(),
            final(self).spec_received() == old(self).spec_received()
                + delivered@.len() as int / old(self).spec_chunk_size() as int,
            final(self).spec_is_echoing() ==> {
                &&& final(self).spec_sent() == old(self).spec_sent()
                    + delivered@.len() as int / old(self).spec_chunk_size() as int
                &&& out.1@ == delivered@.subrange(
                    0,
                    (delivered@.len() as int / old(self).spec_chunk_size() as int)
                        * old(self).spec_chunk_size() as int,
                )
            },
            !final(self).spec_is_echoing() ==> {
                &&& final(self).spec_sent() == 0
                &&& out.1@ =~= Seq::<u8>::empty()
            },
            out.0 == if terminal.is_graceful() {
                Ok::<(), StreamError>(())
            } else {
                Err::<(), StreamError>(terminal)
            },
    {
        match self {
            Reader::Simple(inner) => {
                let r = inner.run(delivered, terminal);
                (r, Vec::new())
            },
            Reader::Echoing(inner) => inner.run(delivered, terminal),
        }
    }
}

} // verus!
