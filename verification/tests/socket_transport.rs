//! The socket transport core: framing, buffering, and the terminal
//! disconnected state.

use navigator_core::socket::{process_next_message, ReadOutcome, SocketCore, WriteOutcome};

/// Drains every message already framed in the read buffer.
fn drain(core: &mut SocketCore) -> Vec<Vec<u8>> {
    let mut out: Vec<Vec<u8>> = Vec::new();
    while let Some(m) = core.poll_message() {
        out.push(m);
    }
    out
}

#[test]
fn framing_yields_messages_in_order_across_chunks() {
    // wire image of "hello", "" and "world", cut at arbitrary boundaries
    let wire = b"hello\0\0world\0";
    let chunks: Vec<&[u8]> = vec![&wire[..3], &wire[3..8], &wire[8..]];
    let mut core = SocketCore::connected_new();
    let mut got: Vec<Vec<u8>> = Vec::new();
    for chunk in chunks {
        core.on_read_outcome(ReadOutcome::Data(chunk.to_vec()));
        got.extend(drain(&mut core));
    }
    assert_eq!(got, vec![b"hello".to_vec(), Vec::new(), b"world".to_vec()]);
    assert!(core.is_connected());
}

#[test]
fn one_message_per_poll_and_backlog_drains() {
    let mut core = SocketCore::connected_new();
    core.on_read_outcome(ReadOutcome::Data(b"a\0b\0".to_vec()));
    assert_eq!(core.poll_message(), Some(b"a".to_vec()));
    assert_eq!(core.poll_message(), Some(b"b".to_vec()));
    assert_eq!(core.poll_message(), None);
}

#[test]
fn partial_message_waits_for_its_terminator() {
    let mut core = SocketCore::connected_new();
    core.on_read_outcome(ReadOutcome::Data(b"incomp".to_vec()));
    assert_eq!(core.poll_message(), None);
    core.on_read_outcome(ReadOutcome::Data(b"lete\0".to_vec()));
    assert_eq!(core.poll_message(), Some(b"incomplete".to_vec()));
}

#[test]
fn send_appends_only_while_connected() {
    let mut core = SocketCore::connected_new();
    core.send(b"ab".to_vec());
    core.send(b"cd".to_vec());
    assert!(core.wants_write());
    assert_eq!(core.write_buffer(), &b"abcd".to_vec());
    let mut closed = SocketCore::disconnected_new();
    closed.send(b"ab".to_vec());
    assert!(!closed.wants_write());
}

#[test]
fn partial_write_keeps_the_tail() {
    let mut core = SocketCore::connected_new();
    core.send(b"abcd".to_vec());
    core.on_write_outcome(WriteOutcome::Wrote(2));
    assert!(core.is_connected());
    assert_eq!(core.write_buffer(), &b"cd".to_vec());
    core.on_write_outcome(WriteOutcome::Wrote(2));
    assert!(!core.wants_write());
}

#[test]
fn would_block_changes_nothing() {
    let mut core = SocketCore::connected_new();
    core.send(b"abcd".to_vec());
    core.on_write_outcome(WriteOutcome::WouldBlock);
    assert!(core.is_connected());
    assert_eq!(core.write_buffer(), &b"abcd".to_vec());
    core.on_read_outcome(ReadOutcome::WouldBlock);
    assert!(core.is_connected());
}

#[test]
fn write_failure_is_fatal_and_final() {
    let mut core = SocketCore::connected_new();
    core.send(b"abcd".to_vec());
    core.on_read_outcome(ReadOutcome::Data(b"queued\0".to_vec()));
    core.on_write_outcome(WriteOutcome::Fatal);
    assert!(!core.is_connected());
    // closure is final: no message ever again, whatever is reported
    assert_eq!(core.poll_message(), None);
    core.send(b"more".to_vec());
    assert!(!core.wants_write());
    core.on_read_outcome(ReadOutcome::Data(b"late\0".to_vec()));
    assert_eq!(core.poll_message(), None);
    core.on_write_outcome(WriteOutcome::Wrote(1));
    assert!(!core.is_connected());
}

#[test]
fn zero_byte_write_is_fatal() {
    let mut core = SocketCore::connected_new();
    core.send(b"x".to_vec());
    core.on_write_outcome(WriteOutcome::Wrote(0));
    assert!(!core.is_connected());
}

#[test]
fn peer_close_is_fatal() {
    let mut core = SocketCore::connected_new();
    core.on_read_outcome(ReadOutcome::Data(Vec::new()));
    assert!(!core.is_connected());
    assert_eq!(core.poll_message(), None);
}

#[test]
fn read_failure_is_fatal() {
    let mut core = SocketCore::connected_new();
    core.on_read_outcome(ReadOutcome::Fatal);
    assert!(!core.is_connected());
}

#[test]
fn extraction_without_terminator_leaves_buffer() {
    let mut buf = b"abc".to_vec();
    assert_eq!(process_next_message(&mut buf), None);
    assert_eq!(buf, b"abc".to_vec());
}

#[test]
fn extraction_consumes_terminator_and_keeps_rest() {
    let mut buf = b"ab\0cd".to_vec();
    assert_eq!(process_next_message(&mut buf), Some(b"ab".to_vec()));
    assert_eq!(buf, b"cd".to_vec());
}

#[test]
fn adjacent_terminators_frame_an_empty_message() {
    let mut buf = b"\0\0x".to_vec();
    assert_eq!(process_next_message(&mut buf), Some(Vec::new()));
    assert_eq!(process_next_message(&mut buf), Some(Vec::new()));
    assert_eq!(process_next_message(&mut buf), None);
    assert_eq!(buf, b"x".to_vec());
}
