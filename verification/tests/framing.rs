use mysql_wire::connection::Phase;
use mysql_wire::packet::{get_packet_type, FramingError, Packet, PacketHeader, PacketType};

fn packet_bytes(body: &[u8], seq: u8) -> Vec<u8> {
    let n = body.len();
    let mut buf = vec![(n & 0xFF) as u8, ((n >> 8) & 0xFF) as u8, ((n >> 16) & 0xFF) as u8, seq];
    buf.extend_from_slice(body);
    buf
}

#[test]
fn header_round_trip() {
    let h = PacketHeader { size: 0x123456, seq: 42 };
    let b = h.to_bytes().unwrap();
    assert_eq!(b, [0x56, 0x34, 0x12, 42]);
    let h2 = PacketHeader::from_bytes(&b);
    assert_eq!(h2, h);
}

#[test]
fn header_round_trip_small() {
    let h = PacketHeader { size: 5, seq: 0 };
    assert_eq!(PacketHeader::from_bytes(&h.to_bytes().unwrap()), h);
}

#[test]
fn header_decode_exact() {
    let h = PacketHeader::from_bytes(&[0x01, 0x00, 0x00, 0x09]);
    assert_eq!(h.size, 1);
    assert_eq!(h.seq, 9);
}

#[test]
fn header_oversized_size_is_hard_error() {
    let h = PacketHeader { size: 0x1000000, seq: 0 };
    assert_eq!(h.to_bytes(), Err(FramingError::InvalidPacket));
}

#[test]
fn frame_short_buffer_incomplete_header() {
    for n in 0..4 {
        let buf = vec![0u8; n];
        let r = Packet::from_bytes(&buf, Phase::Connection);
        assert!(matches!(r, Err(FramingError::IncompleteHeader)));
    }
}

#[test]
fn frame_short_body_incomplete_body() {
    // header declares size 5; only 4 body bytes follow (4 + 5 - 1 total)
    let buf = vec![5u8, 0, 0, 0, 1, 2, 3, 4];
    let r = Packet::from_bytes(&buf, Phase::Connection);
    assert!(matches!(r, Err(FramingError::IncompleteBody)));
}

#[test]
fn frame_empty_body_invalid_packet() {
    let buf = vec![0u8, 0, 0, 0];
    let r = Packet::from_bytes(&buf, Phase::Connection);
    assert!(matches!(r, Err(FramingError::InvalidPacket)));
}

#[test]
fn frame_ok_body() {
    let body = [0x00u8, 0, 0, 0, 0, 0, 0];
    let p = Packet::from_bytes(&packet_bytes(&body, 1), Phase::Connection).unwrap();
    assert_eq!(p.get_packet_type(), PacketType::OkReply);
    assert_eq!(p.header.size, 7);
    assert_eq!(p.header.seq, 1);
    assert_eq!(p.body, body.to_vec());
    let p2 = Packet::from_bytes(&packet_bytes(&body, 1), Phase::Command).unwrap();
    assert_eq!(p2.get_packet_type(), PacketType::OkReply);
}

#[test]
fn frame_eof_body() {
    let body = [0xFEu8, 0, 0, 0, 0, 0, 0, 0, 0];
    let p = Packet::from_bytes(&packet_bytes(&body, 0), Phase::Connection).unwrap();
    assert_eq!(p.get_packet_type(), PacketType::Eof);
    let p2 = Packet::from_bytes(&packet_bytes(&body, 0), Phase::Command).unwrap();
    assert_eq!(p2.get_packet_type(), PacketType::Eof);
}

#[test]
fn frame_error_body() {
    let body = [0xFFu8, 0x84, 0x04];
    let p = Packet::from_bytes(&packet_bytes(&body, 3), Phase::Connection).unwrap();
    assert_eq!(p.get_packet_type(), PacketType::Error);
    let p2 = Packet::from_bytes(&packet_bytes(&body, 3), Phase::Command).unwrap();
    assert_eq!(p2.get_packet_type(), PacketType::Error);
}

#[test]
fn frame_command_body() {
    let body = [0x03u8, b'S', b'E', b'L'];
    let p = Packet::from_bytes(&packet_bytes(&body, 0), Phase::Command).unwrap();
    assert_eq!(p.get_packet_type(), PacketType::Command);
    let p2 = Packet::from_bytes(&packet_bytes(&body, 0), Phase::Connection).unwrap();
    assert_eq!(p2.get_packet_type(), PacketType::Other);
}

#[test]
fn classify_boundaries() {
    // a 6-byte body starting 0x00 is too short for an OK reply
    assert_eq!(get_packet_type(&[0x00, 0, 0, 0, 0, 0], Phase::Connection), PacketType::Other);
    // a 10-byte body starting 0xFE is too long for an EOF reply
    assert_eq!(
        get_packet_type(&[0xFE, 0, 0, 0, 0, 0, 0, 0, 0, 0], Phase::Connection),
        PacketType::Other,
    );
    // 0xFF wins at any length
    assert_eq!(get_packet_type(&[0xFF], Phase::Connection), PacketType::Error);
}

#[test]
fn frame_leaves_trailing_bytes() {
    let mut buf = packet_bytes(&[0xFF, 0xAA], 0);
    buf.extend_from_slice(&[9, 9, 9]);
    let p = Packet::from_bytes(&buf, Phase::Connection).unwrap();
    assert_eq!(p.header.size, 2);
    assert_eq!(p.body, vec![0xFF, 0xAA]);
}

#[test]
fn serialize_round_trip() {
    let buf = packet_bytes(&[0x31, 0x32, 0x33], 7);
    let p = Packet::from_bytes(&buf, Phase::Connection).unwrap();
    assert_eq!(p.to_bytes(), buf);
}
