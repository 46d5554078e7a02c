use seismic::measurement::{Measurement, MeasurementSet};
use seismic::measurer::Measurer;
use seismic::reader::{Reader, SimpleReader, StreamError};
use seismic::receiver::{Receiver, ReceiverConfig};
use seismic::sender::{Generator, Sender, SenderConfig};
use seismic::session::SessionPhase;

const MILLI: u64 = 1_000_000;

#[test]
fn receiver_walks_the_session_phases() {
    let config = ReceiverConfig { freq_nanos: 200 * MILLI, chunk_size: 1024, echo: true };
    let mut r = Receiver::new(config);
    assert_eq!(r.phase, SessionPhase::Idle);
    r.start();
    assert_eq!(r.phase, SessionPhase::Running);
    r.reading_done();
    assert_eq!(r.phase, SessionPhase::Draining);
    let mut mset = MeasurementSet::new();
    mset.record(50, 0, 4);
    let res = r.finish(Ok(()), mset);
    assert_eq!(r.phase, SessionPhase::Completed);
    assert_eq!(res.expect("clean session").len(), 1);
}

#[test]
fn receiver_propagates_a_fatal_read_error() {
    let config = ReceiverConfig { freq_nanos: 200 * MILLI, chunk_size: 64, echo: false };
    let mut r = Receiver::new(config);
    r.start();
    r.reading_done();
    let res = r.finish(Err(StreamError::Other), MeasurementSet::new());
    assert_eq!(res.err(), Some(StreamError::Other));
}

/// A client at `chunk_size = 1024`, `run_duration = 2 s`, sampled every
/// 200 ms, against an echoing server: the server receives what the client
/// sent, the echoes bring the client's received count up to its sent count,
/// and each sampler collects about ten samples spanning the two seconds.
#[test]
fn end_to_end_echo_session() {
    let chunk_size: usize = 1024;
    let duration = 2_000 * MILLI;

    // Client side: the generator writes as fast as the transport accepts;
    // here it observes the clock every 100 ms until the deadline passes.
    let mut client = Sender::new(SenderConfig {
        addr: String::from("127.0.0.1:7225"),
        freq_nanos: 200 * MILLI,
        length_nanos: duration,
        chunk_size,
    });
    client.start();
    let mut generator = Generator::new(duration, chunk_size);
    let readings: Vec<u64> = (0..=20).map(|k| k * 100 * MILLI).collect();
    generator.run(&readings);
    assert_eq!(generator.sent, 20);

    // The wire delivers every sent chunk to the server, then the client
    // closes and the server's next whole-chunk read hits end-of-stream.
    let delivered = vec![0xabu8; generator.sent as usize * chunk_size];

    // Server side: per-connection echoing session.
    let server_config = ReceiverConfig { freq_nanos: 200 * MILLI, chunk_size, echo: true };
    let mut server = Receiver::new(server_config);
    server.start();
    let mut server_reader = Reader::new(server_config);
    let (server_res, echoed) = server_reader.run(&delivered, StreamError::UnexpectedEof);
    assert_eq!(server_res, Ok(()));
    let (server_received, server_sent) = match &server_reader {
        Reader::Echoing(inner) => (inner.reader.received, inner.sent),
        Reader::Simple(_) => panic!("echo mode uses the echoing variant"),
    };
    assert_eq!(server_received, generator.sent);
    assert_eq!(server_sent, generator.sent);

    // The echoes travel back and the client's consumer drains them.
    let mut client_reader = SimpleReader::new(chunk_size);
    let client_read_res = client_reader.run(&echoed, StreamError::UnexpectedEof);
    assert_eq!(client_read_res, Ok(()));
    assert_eq!(client_reader.received, generator.sent);

    // Both samplers ticked every 200 ms while the transfer ran.
    let (mut client_measurer, mut client_stopper) = Measurer::new(200 * MILLI);
    let ticks: Vec<Measurement> = (1..=10)
        .map(|k| Measurement::new(k * 200 * MILLI, 2 * k, 2 * k))
        .collect();
    let series = client_measurer.run(&ticks);
    client.data_phase_done();
    client_stopper.stop();
    assert_eq!(series.len(), 10);
    let span = series.measurements.last().unwrap().dt_nanos
        - series.measurements.first().unwrap().dt_nanos;
    assert_eq!(span, 1_800 * MILLI);

    // Final counts agree on both ends.
    let res = client.finish(Ok(()), client_read_res, series);
    assert_eq!(client.phase, SessionPhase::Completed);
    let series = res.expect("clean session");
    assert_eq!(series.measurements.last().unwrap().sent, generator.sent);
    server.reading_done();
    let server_series = server.finish(server_res, MeasurementSet::new());
    assert!(server_series.is_ok());
}

/// A server with echo off, fed for one second at `chunk_size = 64`: its sent
/// counter stays zero while its received count matches the client's sent
/// count when the connection closes.
#[test]
fn end_to_end_plain_session() {
    let chunk_size: usize = 64;
    let duration = 1_000 * MILLI;

    let mut generator = Generator::new(duration, chunk_size);
    let readings: Vec<u64> = (0..=25).map(|k| k * 50 * MILLI).collect();
    generator.run(&readings);
    assert_eq!(generator.sent, 20);

    let delivered = vec![0x55u8; generator.sent as usize * chunk_size];
    let server_config = ReceiverConfig { freq_nanos: 200 * MILLI, chunk_size, echo: false };
    let mut server_reader = Reader::new(server_config);
    let (server_res, echoed) = server_reader.run(&delivered, StreamError::UnexpectedEof);
    assert_eq!(server_res, Ok(()));
    assert!(echoed.is_empty());
    match &server_reader {
        Reader::Simple(inner) => assert_eq!(inner.received, generator.sent),
        Reader::Echoing(_) => panic!("echo off uses the simple variant"),
    }
}

/// The composed sending session: generator, echo consumer and sampler wired
/// together by `Sender::run` over modeled collaborators.
#[test]
fn sender_run_composes_the_session() {
    let mut client = Sender::new(SenderConfig {
        addr: String::from("127.0.0.1:7225"),
        freq_nanos: 200 * MILLI,
        length_nanos: 1_000 * MILLI,
        chunk_size: 256,
    });
    let readings: Vec<u64> = (0..=10).map(|k| k * 100 * MILLI).collect();
    let echoed_back = vec![0x11u8; 10 * 256];
    let ticks = vec![Measurement::new(200 * MILLI, 2, 2), Measurement::new(400 * MILLI, 4, 4)];
    let res = client.run(&readings, &echoed_back, StreamError::UnexpectedEof, &ticks);
    assert_eq!(client.phase, SessionPhase::Completed);
    assert_eq!(client.sent, 10);
    assert_eq!(client.received, 10);
    let series = res.expect("clean session");
    assert_eq!(series.measurements, ticks);
}

/// The composed receiving session: consumer and sampler wired together by
/// `Receiver::run` over modeled collaborators, with echo off so the sent
/// counter stays zero.
#[test]
fn receiver_run_composes_the_session() {
    let config = ReceiverConfig { freq_nanos: 200 * MILLI, chunk_size: 64, echo: false };
    let mut server = Receiver::new(config);
    let delivered = vec![0x22u8; 7 * 64 + 5];
    let ticks = vec![Measurement::new(300 * MILLI, 0, 4)];
    let res = server.run(&delivered, StreamError::ConnectionReset, &ticks);
    assert_eq!(server.phase, SessionPhase::Completed);
    assert_eq!(server.received, 7);
    assert_eq!(server.sent, 0);
    assert_eq!(res.expect("graceful end").measurements, ticks);
}

/// A fatal error in the composed receiving session still walks the session
/// to completion, and the error is surfaced.
#[test]
fn receiver_run_surfaces_a_fatal_error() {
    let config = ReceiverConfig { freq_nanos: 200 * MILLI, chunk_size: 64, echo: true };
    let mut server = Receiver::new(config);
    let delivered = vec![0x33u8; 2 * 64];
    let res = server.run(&delivered, StreamError::Other, &Vec::new());
    assert_eq!(server.phase, SessionPhase::Completed);
    assert_eq!(server.received, 2);
    assert_eq!(server.sent, 2);
    assert_eq!(res.err(), Some(StreamError::Other));
}

/// A run duration of zero: the generator sends nothing, the sampler's series
/// may be empty, and the session still completes successfully.
#[test]
fn zero_duration_session_completes() {
    let chunk_size: usize = 1024;

    let mut client = Sender::new(SenderConfig {
        addr: String::from("127.0.0.1:7225"),
        freq_nanos: 200 * MILLI,
        length_nanos: 0,
        chunk_size,
    });
    client.start();

    let mut generator = Generator::new(0, chunk_size);
    generator.run(&vec![0, 100, 200]);
    assert_eq!(generator.sent, 0);

    let mut reader = SimpleReader::new(chunk_size);
    let read_res = reader.run(&Vec::new(), StreamError::UnexpectedEof);
    assert_eq!(read_res, Ok(()));
    assert_eq!(reader.received, 0);

    let (mut measurer, mut stopper) = Measurer::new(200 * MILLI);
    let series = measurer.run(&Vec::new());
    client.data_phase_done();
    stopper.stop();

    let res = client.finish(Ok(()), read_res, series);
    assert_eq!(client.phase, SessionPhase::Completed);
    assert_eq!(res.expect("clean session").len(), 0);
}
