use seismic::reader::{
    handle_read_chunk_result, EchoingReader, ReadChunkAction, Reader, SimpleReader, StreamError,
};
use seismic::receiver::ReceiverConfig;

fn config(chunk_size: usize, echo: bool) -> ReceiverConfig {
    ReceiverConfig { freq_nanos: 200_000_000, chunk_size, echo }
}

#[test]
fn successful_read_continues() {
    assert_eq!(handle_read_chunk_result(Ok(())), ReadChunkAction::Continue);
}

#[test]
fn eof_is_a_graceful_exit() {
    assert_eq!(
        handle_read_chunk_result(Err(StreamError::UnexpectedEof)),
        ReadChunkAction::Exit(Ok(()))
    );
}

#[test]
fn reset_is_a_graceful_exit() {
    assert_eq!(
        handle_read_chunk_result(Err(StreamError::ConnectionReset)),
        ReadChunkAction::Exit(Ok(()))
    );
}

#[test]
fn other_error_is_a_fatal_exit() {
    assert_eq!(
        handle_read_chunk_result(Err(StreamError::Other)),
        ReadChunkAction::Exit(Err(StreamError::Other))
    );
}

#[test]
fn read_chunk_counts_only_successes() {
    let mut r = SimpleReader::new(16);
    assert_eq!(r.read_chunk(Ok(())), Ok(()));
    assert_eq!(r.received, 1);
    assert_eq!(r.read_chunk(Err(StreamError::UnexpectedEof)), Err(StreamError::UnexpectedEof));
    assert_eq!(r.received, 1);
}

#[test]
fn whole_chunks_are_counted_then_success() {
    // A stream that delivers exactly 3 whole chunks, then closes.
    let delivered = vec![7u8; 3 * 64];
    let mut r = SimpleReader::new(64);
    let res = r.run(&delivered, StreamError::UnexpectedEof);
    assert_eq!(res, Ok(()));
    assert_eq!(r.received, 3);
}

#[test]
fn partial_trailing_chunk_is_not_counted() {
    // 2 whole chunks and 10 more bytes, then end-of-stream mid-chunk.
    let delivered = vec![1u8; 2 * 32 + 10];
    let mut r = SimpleReader::new(32);
    let res = r.run(&delivered, StreamError::UnexpectedEof);
    assert_eq!(res, Ok(()));
    assert_eq!(r.received, 2);
}

#[test]
fn reset_mid_stream_is_success() {
    let delivered = vec![9u8; 5 * 8];
    let mut r = SimpleReader::new(8);
    let res = r.run(&delivered, StreamError::ConnectionReset);
    assert_eq!(res, Ok(()));
    assert_eq!(r.received, 5);
}

#[test]
fn fatal_error_is_propagated() {
    let delivered = vec![2u8; 4 * 16 + 3];
    let mut r = SimpleReader::new(16);
    let res = r.run(&delivered, StreamError::Other);
    assert_eq!(res, Err(StreamError::Other));
    assert_eq!(r.received, 4);
}

#[test]
fn empty_stream_reads_nothing() {
    let delivered: Vec<u8> = Vec::new();
    let mut r = SimpleReader::new(128);
    let res = r.run(&delivered, StreamError::UnexpectedEof);
    assert_eq!(res, Ok(()));
    assert_eq!(r.received, 0);
}

#[test]
fn echo_writes_back_identical_content() {
    let mut delivered: Vec<u8> = Vec::new();
    for i in 0..6 * 4 {
        delivered.push(i as u8);
    }
    let mut e = EchoingReader::new(4);
    let (res, echoed) = e.run(&delivered, StreamError::UnexpectedEof);
    assert_eq!(res, Ok(()));
    assert_eq!(e.reader.received, 6);
    assert_eq!(e.sent, 6);
    assert_eq!(echoed, delivered);
}

#[test]
fn echo_skips_the_partial_chunk() {
    let mut delivered = vec![5u8; 2 * 10];
    delivered.extend_from_slice(&[1, 2, 3]);
    let mut e = EchoingReader::new(10);
    let (res, echoed) = e.run(&delivered, StreamError::UnexpectedEof);
    assert_eq!(res, Ok(()));
    assert_eq!(e.reader.received, 2);
    assert_eq!(e.sent, 2);
    assert_eq!(echoed, &delivered[..20]);
}

#[test]
fn echoing_read_chunk_counts_both_sides() {
    let mut e = EchoingReader::new(8);
    assert_eq!(e.read_chunk(Ok(()), Ok(())), Ok(()));
    assert_eq!(e.reader.received, 1);
    assert_eq!(e.sent, 1);
    // A failed read counts nothing.
    assert_eq!(e.read_chunk(Err(StreamError::Other), Ok(())), Err(StreamError::Other));
    assert_eq!(e.reader.received, 1);
    assert_eq!(e.sent, 1);
    // A read whose echo write fails counts the receipt but not the send.
    assert_eq!(e.read_chunk(Ok(()), Err(StreamError::Other)), Err(StreamError::Other));
    assert_eq!(e.reader.received, 2);
    assert_eq!(e.sent, 1);
}

#[test]
fn config_selects_the_variant() {
    assert!(matches!(Reader::new(config(8, true)), Reader::Echoing(_)));
    assert!(matches!(Reader::new(config(8, false)), Reader::Simple(_)));
}

#[test]
fn simple_variant_sends_nothing_back() {
    let delivered = vec![3u8; 5 * 8];
    let mut r = Reader::new(config(8, false));
    let (res, echoed) = r.run(&delivered, StreamError::UnexpectedEof);
    assert_eq!(res, Ok(()));
    assert!(echoed.is_empty());
    match r {
        Reader::Simple(inner) => assert_eq!(inner.received, 5),
        Reader::Echoing(_) => panic!("expected the simple variant"),
    }
}

#[test]
fn echoing_variant_echoes_every_chunk() {
    let delivered = vec![8u8; 3 * 16 + 1];
    let mut r = Reader::new(config(16, true));
    let (res, echoed) = r.run(&delivered, StreamError::ConnectionReset);
    assert_eq!(res, Ok(()));
    assert_eq!(echoed, &delivered[..48]);
    match r {
        Reader::Echoing(inner) => {
            assert_eq!(inner.reader.received, 3);
            assert_eq!(inner.sent, 3);
        }
        Reader::Simple(_) => panic!("expected the echoing variant"),
    }
}
