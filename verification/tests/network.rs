use spironmc::network::{frame_packet, Buffer, RawPacket};

fn framed(payload: &[u8]) -> Vec<u8> {
    let mut out = (payload.len() as u32).to_be_bytes().to_vec();
    out.extend_from_slice(payload);
    out
}

#[test]
fn peek_does_not_consume() {
    let mut buf = Buffer::new();
    assert!(buf.is_empty());
    buf.extend(b"hello");
    assert_eq!(buf.len(), 5);
    assert_eq!(buf.peek(5), Some(b"hello".as_slice()));
    assert_eq!(buf.len(), 5);
}

#[test]
fn take_returns_bytes_in_order() {
    let mut buf = Buffer::new();
    buf.extend(b"ab");
    buf.extend(b"cd");
    assert_eq!(buf.take(3), Some(b"abc".to_vec()));
    assert_eq!(buf.take(1), Some(b"d".to_vec()));
    assert!(buf.is_empty());
}

#[test]
fn short_reads_return_none_and_keep_data() {
    let mut buf = Buffer::new();
    buf.extend(b"ab");
    assert_eq!(buf.peek(3), None);
    assert_eq!(buf.take(3), None);
    assert_eq!(buf.len(), 2);
}

#[test]
fn stays_consistent_across_compaction() {
    let mut buf = Buffer::new();
    buf.extend(&vec![7u8; 5000]);
    assert_eq!(buf.take(4096), Some(vec![7u8; 4096]));
    assert_eq!(buf.len(), 904);
    assert_eq!(buf.take(904), Some(vec![7u8; 904]));
    assert!(buf.is_empty());
    buf.extend(b"after");
    assert_eq!(buf.take(5), Some(b"after".to_vec()));
}

#[test]
fn frames_single_packet() {
    let mut buf = Buffer::new();
    buf.extend(&framed(b"hello"));
    assert_eq!(frame_packet(&mut buf), Some(RawPacket::new(b"hello".to_vec())));
    assert!(buf.is_empty());
}

#[test]
fn waits_for_split_header_and_body() {
    let mut buf = Buffer::new();
    let bytes = framed(b"split-packet");
    buf.extend(&bytes[..2]);
    assert_eq!(frame_packet(&mut buf), None);
    buf.extend(&bytes[2..7]);
    assert_eq!(frame_packet(&mut buf), None);
    buf.extend(&bytes[7..]);
    assert_eq!(frame_packet(&mut buf), Some(RawPacket::new(b"split-packet".to_vec())));
}

#[test]
fn frames_back_to_back_packets() {
    let mut buf = Buffer::new();
    buf.extend(&framed(b"one"));
    buf.extend(&framed(b""));
    buf.extend(&framed(b"three"));
    assert_eq!(frame_packet(&mut buf), Some(RawPacket::new(b"one".to_vec())));
    assert_eq!(frame_packet(&mut buf), Some(RawPacket::new(vec![])));
    assert_eq!(frame_packet(&mut buf), Some(RawPacket::new(b"three".to_vec())));
    assert_eq!(frame_packet(&mut buf), None);
}

#[test]
fn ignores_trailing_garbage_until_complete() {
    let mut buf = Buffer::new();
    buf.extend(b"\x00\x00");
    assert_eq!(frame_packet(&mut buf), None);
    assert_eq!(buf.len(), 2);
}

#[test]
fn raw_packets_expose_their_bytes() {
    let packet = RawPacket::new(vec![1, 2, 3]);
    assert_eq!(packet.len(), 3);
    assert!(!packet.is_empty());
    assert_eq!(packet.into_data(), vec![1, 2, 3]);
    assert!(RawPacket::new(vec![]).is_empty());
}
