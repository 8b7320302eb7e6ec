use iex_protocols::transport_latest::{
    BytestreamRequestRangeBlock, GapFillRequest, MessageBlockPacket, MessageProtocolId,
    RequestType, TransportProtocalHeader, Version,
};

fn header(protocol: u16, payload_length: u16, message_count: u16) -> Vec<u8> {
    let mut h = Vec::new();
    h.push(1u8);
    h.push(0u8);
    h.extend_from_slice(&protocol.to_le_bytes());
    h.extend_from_slice(&0x0102_0304u32.to_le_bytes());
    h.extend_from_slice(&42u32.to_le_bytes());
    h.extend_from_slice(&payload_length.to_le_bytes());
    h.extend_from_slice(&message_count.to_le_bytes());
    h.extend_from_slice(&1000i64.to_le_bytes());
    h.extend_from_slice(&7i64.to_le_bytes());
    h.extend_from_slice(&1_600_000_000_000_000_000i64.to_le_bytes());
    h
}

fn block(messages: &[&[u8]]) -> Vec<u8> {
    let mut b = Vec::new();
    for m in messages {
        b.extend_from_slice(&(m.len() as u16).to_le_bytes());
        b.extend_from_slice(m);
    }
    b
}

#[test]
fn header_fields_are_decoded() {
    let mut p = header(0x8003, 0, 0);
    p.extend_from_slice(&[9, 9, 9]);
    let (h, messages) = TransportProtocalHeader::parse_packet(&p).unwrap();
    assert!(messages.is_none());
    assert_eq!(h.version, Version(1));
    assert_eq!(h.version, Version::V1());
    assert_eq!(h.reserved.to_native(), 0);
    assert_eq!(h.message_protocol_id, MessageProtocolId::TOPS_V1());
    assert_eq!(h.channel_id.to_native(), 0x0102_0304);
    assert_eq!(h.session_id.to_native(), 42);
    assert_eq!(h.payload_length.to_native(), 0);
    assert_eq!(h.message_count.to_native(), 0);
    assert_eq!(h.stream_offset.to_native(), 1000);
    assert_eq!(h.first_message.to_native(), 7);
    assert_eq!(h.send_time.0.to_native(), 1_600_000_000_000_000_000);
}

#[test]
fn header_is_always_vaild() {
    assert!(TransportProtocalHeader::is_vaild(&[0u8; 40]));
    assert!(TransportProtocalHeader::is_vaild(&[0xffu8; 40]));
}

#[test]
fn short_packet_is_none() {
    let p = header(0x8004, 0, 0);
    assert!(TransportProtocalHeader::parse_packet(&p[..39]).is_none());
    assert!(TransportProtocalHeader::parse_packet(&[]).is_none());
}

#[test]
fn messages_follow_header() {
    let body = block(&[&[1, 2, 3], &[4], &[]]);
    let mut p = header(0x8004, body.len() as u16, 3);
    p.extend_from_slice(&body);
    let (h, messages) = TransportProtocalHeader::parse_packet(&p).unwrap();
    assert_eq!(h.message_protocol_id, MessageProtocolId::DEEP());
    let m = messages.unwrap();
    assert_eq!(m.0, &body[..]);
    assert_eq!(m.block().length.to_native(), 3);
    assert_eq!(m.current_payload(), &[1, 2, 3]);
    let m = m.next().unwrap();
    assert_eq!(m.current_payload(), &[4]);
    let m = m.next().unwrap();
    assert_eq!(m.current_payload(), &[] as &[u8]);
    assert!(m.next().is_none());
}

#[test]
fn payload_length_limits_the_message_block() {
    let body = block(&[&[1, 2], &[3]]);
    let mut p = header(0x8005, 4, 2);
    p.extend_from_slice(&body);
    let (_, messages) = TransportProtocalHeader::parse_packet(&p).unwrap();
    let m = messages.unwrap();
    assert_eq!(m.0.len(), 4);
    assert_eq!(m.current_payload(), &[1, 2]);
    assert!(m.next().is_none());
}

#[test]
fn truncated_message_block_is_none() {
    let body = block(&[&[1, 2, 3]]);
    let mut p = header(0x8004, body.len() as u16 + 1, 1);
    p.extend_from_slice(&body);
    assert!(TransportProtocalHeader::parse_packet(&p).is_none());
}

#[test]
fn incomplete_first_message_is_none() {
    let mut p = header(0x8004, 3, 1);
    p.extend_from_slice(&[5, 0, 1]);
    assert!(TransportProtocalHeader::parse_packet(&p).is_none());
}

#[test]
fn new_checked_needs_whole_first_message() {
    assert!(MessageBlockPacket::new_checked(&[]).is_none());
    assert!(MessageBlockPacket::new_checked(&[1]).is_none());
    assert!(MessageBlockPacket::new_checked(&[2, 0, 1]).is_none());
    assert!(MessageBlockPacket::new_checked(&[2, 0, 1, 2]).is_some());
    assert!(MessageBlockPacket::new_checked(&[0, 0]).is_some());
}

#[test]
fn next_resumes_after_current_payload() {
    let data = [3u8, 0, 10, 11, 12, 1, 0, 13, 0xff];
    let m = MessageBlockPacket::new_checked(&data).unwrap();
    assert_eq!(m.current_payload(), &[10, 11, 12]);
    let n = m.next().unwrap();
    assert_eq!(n.0, &data[5..]);
    assert_eq!(n.current_payload(), &[13]);
    assert!(n.next().is_none());
}

#[test]
fn block_splits_into_prefix_payload_rest() {
    let data = [2u8, 0, 7, 8, 1, 0, 9];
    let m = MessageBlockPacket::new_checked(&data).unwrap();
    let mut joined = data[..2].to_vec();
    joined.extend_from_slice(m.current_payload());
    joined.extend_from_slice(m.next().unwrap().0);
    assert_eq!(joined, data.to_vec());
}

#[test]
fn protocol_ids() {
    assert_eq!(MessageProtocolId::TOPS_V0().native(), 0x8002);
    assert_eq!(MessageProtocolId::TOPS_V1().native(), 0x8003);
    assert_eq!(MessageProtocolId::DEEP().native(), 0x8004);
    assert_eq!(MessageProtocolId::DEEP_PLUS().native(), 0x8005);
    assert_eq!(MessageProtocolId::DEEP_PLUS().raw(), 0x8005u16.to_le());
}

#[test]
fn request_type_codes() {
    assert!(RequestType::is_vaild(1));
    assert!(RequestType::is_vaild(2));
    assert!(!RequestType::is_vaild(0));
    assert!(!RequestType::is_vaild(3));
    assert_eq!(RequestType::SequencedMessages.to_byte(), 1);
    assert_eq!(RequestType::Bytestream.to_byte(), 2);
    assert_eq!(BytestreamRequestRangeBlock::KIND(), RequestType::Bytestream);
}

#[test]
fn gap_fill_request_validity() {
    let mut r = [0u8; 16];
    r[1] = 2;
    assert!(GapFillRequest::is_vaild(&r));
    r[1] = 1;
    assert!(GapFillRequest::is_vaild(&r));
    r[1] = 9;
    assert!(!GapFillRequest::is_vaild(&r));
}
