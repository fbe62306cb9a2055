use spironmc::network::{ConnState, ConnectionCore, RawPacket, ReadOutcome, WriteOutcome};

fn framed(payload: &[u8]) -> Vec<u8> {
    let mut out = (payload.len() as u32).to_be_bytes().to_vec();
    out.extend_from_slice(payload);
    out
}

/// What a socket that takes every byte offered does with the outbox.
fn write_all(conn: &mut ConnectionCore) -> Vec<u8> {
    let written = conn.outbox().to_vec();
    let more = conn.on_written(WriteOutcome::Wrote(written.len()));
    assert!(!more);
    conn.on_flushed(true);
    written
}

#[test]
fn starts_connected_and_empty() {
    let conn = ConnectionCore::new();
    assert_eq!(conn.state(), ConnState::Connected);
    assert!(!conn.is_closed());
    assert!(conn.outbox().is_empty());
    assert_eq!((conn.bytes_read(), conn.bytes_written()), (0, 0));
}

#[test]
fn send_flushes_and_counts_bytes() {
    let mut conn = ConnectionCore::new();
    assert!(conn.queue(b"hello"));
    assert_eq!(write_all(&mut conn), b"hello");
    assert_eq!(conn.bytes_written(), 5);
    assert!(conn.outbox().is_empty());
}

#[test]
fn partial_writes_keep_the_rest_in_order() {
    let mut conn = ConnectionCore::new();
    assert!(conn.queue(b"abc"));
    assert!(conn.queue(b"def"));
    assert!(conn.on_written(WriteOutcome::Wrote(2)));
    assert_eq!(conn.outbox(), b"cdef");
    assert!(!conn.on_written(WriteOutcome::Pending));
    assert_eq!(conn.outbox(), b"cdef");
    assert!(!conn.on_written(WriteOutcome::Wrote(0)));
    assert!(!conn.on_written(WriteOutcome::Wrote(4)));
    assert!(conn.outbox().is_empty());
    assert_eq!(conn.bytes_written(), 6);
}

#[test]
fn close_with_empty_outbox_goes_straight_to_closed() {
    let mut conn = ConnectionCore::new();
    conn.close();
    assert_eq!(conn.state(), ConnState::Closed);
}

#[test]
fn close_with_queued_bytes_drains_first() {
    let mut conn = ConnectionCore::new();
    assert!(conn.queue(b"bye"));
    conn.close();
    assert_eq!(conn.state(), ConnState::Closing);
    conn.finish_poll();
    assert_eq!(conn.state(), ConnState::Closing);
    assert_eq!(write_all(&mut conn), b"bye");
    conn.finish_poll();
    assert_eq!(conn.state(), ConnState::Closed);
}

#[test]
fn send_after_close_fails() {
    let mut conn = ConnectionCore::new();
    conn.close();
    assert!(!conn.queue(b"hello"));
    assert!(conn.outbox().is_empty());
}

#[test]
fn closed_state_never_reopens() {
    let mut conn = ConnectionCore::new();
    conn.close();
    conn.finish_poll();
    conn.close();
    assert_eq!(conn.state(), ConnState::Closed);
    assert!(!conn.queue(b"hello"));
    conn.on_flushed(true);
    conn.on_read(ReadOutcome::Pending);
    assert_eq!(conn.state(), ConnState::Closed);
}

#[test]
fn remote_disconnect_marks_closed() {
    let mut conn = ConnectionCore::new();
    conn.on_read(ReadOutcome::Eof);
    assert_eq!(conn.state(), ConnState::Closed);
    let mut conn = ConnectionCore::new();
    conn.on_read(ReadOutcome::Failed);
    assert!(conn.is_closed());
}

#[test]
fn failed_writes_and_flushes_close() {
    let mut conn = ConnectionCore::new();
    assert!(conn.queue(b"x"));
    assert!(!conn.on_written(WriteOutcome::Failed));
    assert!(conn.is_closed());
    assert_eq!(conn.outbox(), b"x");
    let mut conn = ConnectionCore::new();
    conn.on_flushed(false);
    assert!(conn.is_closed());
}

#[test]
fn receives_and_frames_packets() {
    let mut conn = ConnectionCore::new();
    conn.on_read(ReadOutcome::Data(framed(b"ping")));
    assert_eq!(conn.next_packet().map(RawPacket::into_data), Some(b"ping".to_vec()));
    assert_eq!(conn.next_packet(), None);
    assert_eq!(conn.bytes_read(), 8);
}

#[test]
fn incomplete_frame_waits_for_more_bytes() {
    let mut conn = ConnectionCore::new();
    let bytes = framed(b"split");
    conn.on_read(ReadOutcome::Data(bytes[..3].to_vec()));
    assert_eq!(conn.next_packet(), None);
    conn.on_read(ReadOutcome::Data(bytes[3..].to_vec()));
    assert_eq!(conn.next_packet().map(RawPacket::into_data), Some(b"split".to_vec()));
}

#[test]
fn drain_hands_over_everything_received() {
    let mut conn = ConnectionCore::new();
    conn.on_read(ReadOutcome::Data(vec![1, 2]));
    conn.on_read(ReadOutcome::Pending);
    conn.on_read(ReadOutcome::Data(vec![3]));
    assert_eq!(conn.drain_available(), vec![1, 2, 3]);
    assert!(conn.drain_available().is_empty());
    assert_eq!(conn.bytes_read(), 3);
}
