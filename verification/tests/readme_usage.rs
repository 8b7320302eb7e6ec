use iex_protocols::common::MessageParseError;
use iex_protocols::transport_latest::{MessageProtocolId, TransportProtocalHeader};
use iex_protocols::{deep_plus_latest, tops_latest};

#[derive(Debug, PartialEq)]
enum ImplementedProtocols {
    Tops(tops_latest::MessageEnum),
    DeepPlus(deep_plus_latest::MessageEnum),
}

fn parse_transport_packet(packet: &[u8]) -> Option<Vec<ImplementedProtocols>> {
    let mut output = Vec::new();
    let (header, messages) = TransportProtocalHeader::parse_packet(packet)?;
    let mut messages = messages;
    while let Some(ref message) = messages {
        let payload = message.current_payload();
        let id = header.message_protocol_id;
        if id == MessageProtocolId::TOPS_V0() || id == MessageProtocolId::TOPS_V1() {
            match tops_latest::MessageEnum::parse_packet(payload) {
                Err(MessageParseError::Invalid) => return None,
                Err(MessageParseError::Unknown) => {}
                Ok(payload) => output.push(ImplementedProtocols::Tops(payload)),
            }
        } else if id == MessageProtocolId::DEEP_PLUS() {
            match deep_plus_latest::MessageEnum::parse_packet(payload) {
                Err(MessageParseError::Invalid) => return None,
                Err(MessageParseError::Unknown) => {}
                Ok(payload) => output.push(ImplementedProtocols::DeepPlus(payload)),
            }
        } else {
            return None;
        }
        messages = message.next();
    }
    Some(output)
}

fn packet(protocol: u16, messages: &[Vec<u8>]) -> Vec<u8> {
    let mut body = Vec::new();
    for m in messages {
        body.extend_from_slice(&(m.len() as u16).to_le_bytes());
        body.extend_from_slice(m);
    }
    let mut p = vec![1u8, 0];
    p.extend_from_slice(&protocol.to_le_bytes());
    p.extend_from_slice(&0u32.to_le_bytes());
    p.extend_from_slice(&0u32.to_le_bytes());
    p.extend_from_slice(&(body.len() as u16).to_le_bytes());
    p.extend_from_slice(&(messages.len() as u16).to_le_bytes());
    p.extend_from_slice(&[0u8; 24]);
    p.extend_from_slice(&body);
    p
}

fn system_event(code: u8) -> Vec<u8> {
    let mut m = vec![0x53u8, code];
    m.extend_from_slice(&11i64.to_le_bytes());
    m
}

#[test]
fn readme_loop_collects_known_messages() {
    let p = packet(0x8003, &[system_event(0x4f), vec![0x99, 1], system_event(0x43)]);
    let out = parse_transport_packet(&p).unwrap();
    assert_eq!(out.len(), 2);
    match &out[0] {
        ImplementedProtocols::Tops(tops_latest::MessageEnum::SystemEvent(e)) => {
            assert_eq!(e.system_event, tops_latest::SystemEventIdentifier::StartofMessage)
        }
        other => panic!("unexpected {:?}", other),
    }
}

#[test]
fn readme_loop_rejects_invalid_message() {
    let p = packet(0x8005, &[system_event(0x4f), system_event(0x00)]);
    assert!(parse_transport_packet(&p).is_none());
}

#[test]
fn readme_loop_deep_plus() {
    let p = packet(0x8005, &[system_event(0x45)]);
    let out = parse_transport_packet(&p).unwrap();
    assert_eq!(
        out,
        vec![ImplementedProtocols::DeepPlus(
            deep_plus_latest::MessageEnum::parse_packet(&system_event(0x45)).unwrap()
        )]
    );
}
