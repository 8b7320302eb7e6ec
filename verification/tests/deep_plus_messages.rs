use iex_protocols::common::MessageParseError;
use iex_protocols::deep_plus_latest::{
    MessageEnum, MessageType, ModifyFlags, OwnedMessageEnum, SaleConditionFlags,
    SecurityEventIdentifier, Side, TradingStatusIdentifier,
};

fn add_order(side: u8) -> Vec<u8> {
    let mut m = vec![0x61u8, side];
    m.extend_from_slice(&1_000i64.to_le_bytes());
    m.extend_from_slice(b"AB      ");
    m.extend_from_slice(&77i64.to_le_bytes());
    m.extend_from_slice(&300u32.to_le_bytes());
    m.extend_from_slice(&250_000i64.to_le_bytes());
    m
}

#[test]
fn add_order_is_parsed() {
    let bytes = add_order(0x38);
    assert_eq!(bytes.len(), 38);
    match MessageEnum::parse_packet(&bytes).unwrap() {
        MessageEnum::AddOrder(a) => {
            assert_eq!(a.side, Side::Buy);
            assert_eq!(a.timestamp.0.to_native(), 1_000);
            assert_eq!(a.symbol.as_str(), "AB");
            assert_eq!(a.order_id.0.to_native(), 77);
            assert_eq!(a.size.to_native(), 300);
            assert_eq!(a.price.0.to_native(), 250_000);
        }
        other => panic!("unexpected {:?}", other),
    }
    match MessageEnum::parse_packet(&add_order(0x35)).unwrap() {
        MessageEnum::AddOrder(a) => assert_eq!(a.side, Side::Sell),
        other => panic!("unexpected {:?}", other),
    }
}

#[test]
fn add_order_with_unknown_side_is_invalid() {
    assert_eq!(MessageEnum::parse_packet(&add_order(0x36)), Err(MessageParseError::Invalid));
}

#[test]
fn add_order_trailing_bytes_ignored() {
    let mut longer = add_order(0x38);
    longer.push(0xee);
    assert_eq!(MessageEnum::parse_packet(&longer), MessageEnum::parse_packet(&add_order(0x38)));
}

#[test]
fn order_executed_and_modify() {
    let mut e = vec![0x4cu8, 0x10];
    e.extend_from_slice(&3i64.to_le_bytes());
    e.extend_from_slice(b"AB      ");
    e.extend_from_slice(&77i64.to_le_bytes());
    e.extend_from_slice(&20u32.to_le_bytes());
    e.extend_from_slice(&250_000i64.to_le_bytes());
    e.extend_from_slice(&555i64.to_le_bytes());
    match MessageEnum::parse_packet(&e).unwrap() {
        MessageEnum::OrderExecuted(x) => {
            assert_eq!(x.sale_condition_flags, SaleConditionFlags::TradeThroughExempt());
            assert_eq!(x.order_id_reference.0.to_native(), 77);
            assert_eq!(x.trade_id.0.to_native(), 555);
        }
        other => panic!("unexpected {:?}", other),
    }
    let mut m = vec![0x4du8, 0x01];
    m.extend_from_slice(&3i64.to_le_bytes());
    m.extend_from_slice(b"AB      ");
    m.extend_from_slice(&77i64.to_le_bytes());
    m.extend_from_slice(&20u32.to_le_bytes());
    m.extend_from_slice(&250_000i64.to_le_bytes());
    match MessageEnum::parse_packet(&m).unwrap() {
        MessageEnum::OrderModify(x) => {
            assert!(x.modify_flags.contains(ModifyFlags::MaintainPriority()));
        }
        other => panic!("unexpected {:?}", other),
    }
}

#[test]
fn clear_book_delete_and_security_event() {
    let mut c = vec![0x43u8, 0];
    c.extend_from_slice(&3i64.to_le_bytes());
    c.extend_from_slice(b"AB      ");
    assert!(matches!(MessageEnum::parse_packet(&c), Ok(MessageEnum::ClearBook(_))));
    let mut d = vec![0x52u8, 0];
    d.extend_from_slice(&3i64.to_le_bytes());
    d.extend_from_slice(b"AB      ");
    d.extend_from_slice(&9i64.to_le_bytes());
    match MessageEnum::parse_packet(&d).unwrap() {
        MessageEnum::OrderDelete(x) => assert_eq!(x.order_id_reference.0.to_native(), 9),
        other => panic!("unexpected {:?}", other),
    }
    let mut s = vec![0x45u8, 0x43];
    s.extend_from_slice(&3i64.to_le_bytes());
    s.extend_from_slice(b"AB      ");
    match MessageEnum::parse_packet(&s).unwrap() {
        MessageEnum::SecurityEvent(x) => {
            assert_eq!(x.security_event, SecurityEventIdentifier::ClosingProcessComplete)
        }
        other => panic!("unexpected {:?}", other),
    }
}

#[test]
fn deep_plus_trading_status_has_no_resumed() {
    let mut m = vec![0x48u8, 0x4f];
    m.extend_from_slice(&1i64.to_le_bytes());
    m.extend_from_slice(b"AAPL    ");
    m.extend_from_slice(b"T1  ");
    assert_eq!(MessageEnum::parse_packet(&m), Err(MessageParseError::Invalid));
    m[1] = 0x50;
    match MessageEnum::parse_packet(&m).unwrap() {
        MessageEnum::TradingStatus(t) => assert_eq!(t.trading_status, TradingStatusIdentifier::Paused),
        other => panic!("unexpected {:?}", other),
    }
}

#[test]
fn quote_update_is_not_a_deep_plus_message() {
    assert_eq!(MessageEnum::parse_packet(&[0x51, 0, 0]), Err(MessageParseError::Unknown));
}

#[test]
fn enum_codes() {
    assert_eq!(Side::Buy.to_byte(), 0x38);
    assert_eq!(Side::Sell.to_byte(), 0x35);
    assert!(Side::is_vaild([0x38]));
    assert!(!Side::is_vaild([0x37]));
    assert_eq!(MessageType::AddOrder.to_byte(), 0x61);
    assert_eq!(MessageType::from_byte([0x4c]), Some(MessageType::OrderExecuted));
}

#[test]
fn owned_roundtrip() {
    let m = MessageEnum::parse_packet(&add_order(0x35)).unwrap();
    let o = OwnedMessageEnum::from_ref(m);
    assert_eq!(MessageEnum::from_owned(&o), m);
}
