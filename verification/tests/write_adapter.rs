use bytes::BytesMut;
use staged_io::buffer::BUFFER_SIZE;
use staged_io::error::SyncError;
use staged_io::error::TransportError;
use staged_io::write::DrainStep;
use staged_io::write::SafeWrite;
use std::io::Error;
use std::io::ErrorKind;

fn pattern(len: usize) -> Vec<u8> {
    (0..len).map(|i| (i % 241) as u8).collect()
}

/// Plays the transport for one drain that sends everything. Returns what the
/// drain reported and the bytes that went out.
fn drain_all(adapter: &mut SafeWrite) -> (Result<usize, TransportError>, Vec<u8>) {
    match adapter.begin_drain() {
        DrainStep::Idle => (Ok(0), Vec::new()),
        DrainStep::Issue(buffer) => {
            assert!(adapter.is_on_loan());
            let sent = buffer.to_vec();
            let written = sent.len();
            (adapter.finish_drain(buffer, Ok(written)), sent)
        }
    }
}

/// Plays the transport for one drain that fails.
fn drain_failing(adapter: &mut SafeWrite, error: Error) -> Result<usize, TransportError> {
    match adapter.begin_drain() {
        DrainStep::Idle => Ok(0),
        DrainStep::Issue(buffer) => {
            let kind = error.kind();
            adapter.finish_drain(buffer, Err(TransportError { kind, source: Some(error) }))
        }
    }
}

#[test]
fn new_write_adapter_is_empty() {
    let mut adapter = SafeWrite::default();
    assert!(!adapter.is_on_loan());
    assert_eq!(adapter.buffered_len(), 0);
    assert!(adapter.flush().is_ok());
}

#[test]
fn write_stages_bytes_in_order() {
    let mut adapter = SafeWrite::default();
    assert!(matches!(adapter.write(b"hello "), Ok(6)));
    assert!(matches!(adapter.write(b"world"), Ok(5)));
    assert_eq!(adapter.buffered_len(), 11);
    let (report, sent) = drain_all(&mut adapter);
    assert!(matches!(report, Ok(11)));
    assert_eq!(&sent[..], b"hello world");
    assert_eq!(adapter.buffered_len(), 0);
}

#[test]
fn write_of_nothing_stages_nothing() {
    let mut adapter = SafeWrite::default();
    assert!(matches!(adapter.write(&[]), Ok(0)));
    assert_eq!(adapter.buffered_len(), 0);
    assert!(adapter.flush().is_ok());
}

#[test]
fn write_beyond_capacity_is_cut_short_and_resumes_after_drain() {
    let mut adapter = SafeWrite::default();
    let data = pattern(20 * 1024);
    assert!(matches!(adapter.write(&data), Ok(16384)));
    assert_eq!(adapter.buffered_len(), 16384);
    assert!(matches!(adapter.write(&data[16384..]), Err(SyncError::WouldBlock)));

    let (report, sent) = drain_all(&mut adapter);
    assert!(matches!(report, Ok(16384)));
    assert_eq!(&sent[..], &data[..16384]);
    assert_eq!(adapter.buffered_len(), 0);

    assert!(matches!(adapter.write(&data[16384..]), Ok(4096)));
    let (report, sent) = drain_all(&mut adapter);
    assert!(matches!(report, Ok(4096)));
    assert_eq!(&sent[..], &data[16384..]);
}

#[test]
fn write_fills_only_the_room_that_is_left() {
    let mut adapter = SafeWrite::default();
    let first = pattern(BUFFER_SIZE - 10);
    assert!(matches!(adapter.write(&first), Ok(n) if n == BUFFER_SIZE - 10));
    let second = [0xABu8; 64];
    assert!(matches!(adapter.write(&second), Ok(10)));
    assert_eq!(adapter.buffered_len(), BUFFER_SIZE);
    let (_, sent) = drain_all(&mut adapter);
    assert_eq!(&sent[..BUFFER_SIZE - 10], &first[..]);
    assert_eq!(&sent[BUFFER_SIZE - 10..], &[0xABu8; 10][..]);
}

#[test]
fn write_on_full_buffer_would_block_and_copies_nothing() {
    let mut adapter = SafeWrite::default();
    let data = pattern(BUFFER_SIZE);
    assert!(matches!(adapter.write(&data), Ok(BUFFER_SIZE)));
    for _ in 0..3 {
        assert!(matches!(adapter.write(b"more"), Err(SyncError::WouldBlock)));
        assert_eq!(adapter.buffered_len(), BUFFER_SIZE);
    }
    let (_, sent) = drain_all(&mut adapter);
    assert_eq!(sent, data);
}

#[test]
fn buffered_length_stays_within_capacity() {
    let mut adapter = SafeWrite::default();
    let chunk = pattern(1000);
    for round in 0..40 {
        let _ = adapter.write(&chunk);
        assert!(adapter.buffered_len() <= BUFFER_SIZE);
        let _ = adapter.flush();
        assert!(adapter.buffered_len() <= BUFFER_SIZE);
        if round % 17 == 16 {
            let _ = drain_all(&mut adapter);
            assert_eq!(adapter.buffered_len(), 0);
        }
    }
}

#[test]
fn flush_succeeds_only_when_empty_and_clear() {
    let mut adapter = SafeWrite::default();
    assert!(adapter.flush().is_ok());
    assert!(matches!(adapter.write(b"x"), Ok(1)));
    assert!(matches!(adapter.flush(), Err(SyncError::WouldBlock)));
    assert!(matches!(adapter.flush(), Err(SyncError::WouldBlock)));
    assert_eq!(adapter.buffered_len(), 1);
    let _ = drain_all(&mut adapter);
    assert!(adapter.flush().is_ok());
}

#[test]
fn drain_of_empty_adapter_is_a_no_op() {
    let mut adapter = SafeWrite::default();
    assert!(matches!(adapter.begin_drain(), DrainStep::Idle));
    assert!(!adapter.is_on_loan());
    let (report, sent) = drain_all(&mut adapter);
    assert!(matches!(report, Ok(0)));
    assert!(sent.is_empty());
}

#[test]
fn partial_drain_keeps_the_unsent_bytes() {
    let mut adapter = SafeWrite::default();
    assert!(matches!(adapter.write(b"abcdefgh"), Ok(8)));
    match adapter.begin_drain() {
        DrainStep::Idle => panic!("bytes were staged"),
        DrainStep::Issue(buffer) => {
            assert_eq!(&buffer[..], b"abcdefgh");
            assert_eq!(adapter.buffered_len(), 0);
            assert!(matches!(adapter.finish_drain(buffer, Ok(5)), Ok(5)));
        }
    }
    assert!(!adapter.is_on_loan());
    assert_eq!(adapter.buffered_len(), 3);
    assert!(matches!(adapter.flush(), Err(SyncError::WouldBlock)));
    let (_, sent) = drain_all(&mut adapter);
    assert_eq!(&sent[..], b"fgh");
}

#[test]
fn drain_error_reaches_both_sides_once_through_write() {
    let mut adapter = SafeWrite::default();
    assert!(matches!(adapter.write(b"data"), Ok(4)));
    match drain_failing(&mut adapter, Error::new(ErrorKind::BrokenPipe, "pipe closed")) {
        Err(e) => {
            assert_eq!(e.kind, ErrorKind::BrokenPipe);
            assert!(e.source.is_none());
        }
        Ok(_) => panic!("the transport failed"),
    }
    assert_eq!(adapter.buffered_len(), 4);
    match adapter.write(b"more") {
        Err(SyncError::Transport(e)) => {
            assert_eq!(e.kind, ErrorKind::BrokenPipe);
            let source = e.source.expect("first report carries the source");
            assert_eq!(format!("{}", source), "pipe closed");
        }
        other => panic!("expected the transport failure, got {:?}", other),
    }
    assert_eq!(adapter.buffered_len(), 4);
    assert!(matches!(adapter.write(b"more"), Ok(4)));
    assert!(matches!(adapter.flush(), Err(SyncError::WouldBlock)));
    let (_, sent) = drain_all(&mut adapter);
    assert_eq!(&sent[..], b"datamore");
}

#[test]
fn drain_error_reaches_the_synchronous_side_once_through_flush() {
    let mut adapter = SafeWrite::default();
    assert!(matches!(adapter.write(b"data"), Ok(4)));
    assert!(drain_failing(&mut adapter, Error::from(ErrorKind::TimedOut)).is_err());
    match adapter.flush() {
        Err(SyncError::Transport(e)) => assert_eq!(e.kind, ErrorKind::TimedOut),
        other => panic!("expected the transport failure, got {:?}", other),
    }
    assert!(matches!(adapter.flush(), Err(SyncError::WouldBlock)));
    assert!(matches!(adapter.write(b"!"), Ok(1)));
    assert_eq!(adapter.buffered_len(), 5);
}

#[test]
fn pending_error_comes_before_a_full_buffer() {
    let mut adapter = SafeWrite::default();
    let data = pattern(BUFFER_SIZE);
    assert!(matches!(adapter.write(&data), Ok(BUFFER_SIZE)));
    assert!(drain_failing(&mut adapter, Error::from(ErrorKind::ConnectionAborted)).is_err());
    assert!(matches!(adapter.write(b"x"), Err(SyncError::Transport(_))));
    assert!(matches!(adapter.write(b"x"), Err(SyncError::WouldBlock)));
    assert_eq!(adapter.buffered_len(), BUFFER_SIZE);
}

#[test]
fn a_successful_drain_leaves_a_pending_error_pending() {
    let mut adapter = SafeWrite::default();
    assert!(matches!(adapter.write(b"abc"), Ok(3)));
    assert!(drain_failing(&mut adapter, Error::from(ErrorKind::Interrupted)).is_err());
    let (report, sent) = drain_all(&mut adapter);
    assert!(matches!(report, Ok(3)));
    assert_eq!(&sent[..], b"abc");
    match adapter.flush() {
        Err(SyncError::Transport(e)) => assert_eq!(e.kind, ErrorKind::Interrupted),
        other => panic!("expected the transport failure, got {:?}", other),
    }
    assert!(adapter.flush().is_ok());
}

#[test]
fn finish_drain_takes_any_buffer_back() {
    let mut adapter = SafeWrite::default();
    assert!(matches!(adapter.write(b"zz"), Ok(2)));
    match adapter.begin_drain() {
        DrainStep::Idle => panic!("bytes were staged"),
        DrainStep::Issue(_) => {
            let other = BytesMut::from(&b"0123456789"[..]);
            assert!(matches!(adapter.finish_drain(other, Ok(4)), Ok(4)));
        }
    }
    assert_eq!(adapter.buffered_len(), 6);
    let (_, sent) = drain_all(&mut adapter);
    assert_eq!(&sent[..], b"456789");
}
