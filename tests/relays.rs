use microsandbox_monitor::relay::{ReadOutcome, RelayAction, StreamRelay, PIPE_CHUNK_SIZE, TTY_CHUNK_SIZE};

#[test]
fn hello_with_forwarding() {
    let mut buf = [0u8; PIPE_CHUNK_SIZE];
    buf[..5].copy_from_slice(b"hello");
    let mut relay = StreamRelay::new(true);
    let a = relay.on_read(ReadOutcome::Data(5), &buf);
    assert_eq!(a, RelayAction::Record { len: 5, forward: true });
    if let RelayAction::Record { len, .. } = a {
        assert_eq!(&buf[..len], b"hello");
    }
    assert!(!relay.finished);
    assert_eq!(relay.on_read(ReadOutcome::Data(0), &buf), RelayAction::Finish);
    assert!(relay.finished);
}

#[test]
fn hello_without_forwarding() {
    let buf = *b"hello";
    let mut relay = StreamRelay::new(false);
    let a = relay.on_read(ReadOutcome::Data(5), &buf);
    assert_eq!(a, RelayAction::Record { len: 5, forward: false });
    assert_eq!(relay.on_read(ReadOutcome::Data(0), &buf), RelayAction::Finish);
}

#[test]
fn no_forwarding_at_any_volume() {
    let buf = [7u8; PIPE_CHUNK_SIZE];
    let mut relay = StreamRelay::new(false);
    for _ in 0..1000 {
        match relay.on_read(ReadOutcome::Data(PIPE_CHUNK_SIZE), &buf) {
            RelayAction::Record { forward, .. } => assert!(!forward),
            other => panic!("unexpected {:?}", other),
        }
    }
}

#[test]
fn would_block_waits() {
    let buf = [0u8; TTY_CHUNK_SIZE];
    let mut relay = StreamRelay::new(true);
    assert_eq!(relay.on_read(ReadOutcome::WouldBlock, &buf), RelayAction::Wait);
    assert!(!relay.finished);
    assert_eq!(relay.on_read(ReadOutcome::Data(3), &buf), RelayAction::Record { len: 3, forward: true });
}

#[test]
fn read_error_finishes() {
    let buf = [0u8; TTY_CHUNK_SIZE];
    let mut relay = StreamRelay::new(true);
    assert_eq!(relay.on_read(ReadOutcome::Failed, &buf), RelayAction::Finish);
    assert!(relay.finished);
}

#[test]
fn end_of_one_stream_leaves_sibling_running() {
    let buf = *b"data";
    let mut stdout_relay = StreamRelay::new(true);
    let mut stderr_relay = StreamRelay::new(true);
    assert_eq!(stdout_relay.on_read(ReadOutcome::Data(0), &buf), RelayAction::Finish);
    assert!(stdout_relay.finished);
    assert!(!stderr_relay.finished);
    assert_eq!(stderr_relay.on_read(ReadOutcome::Data(4), &buf), RelayAction::Record { len: 4, forward: true });
}
