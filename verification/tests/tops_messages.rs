use iex_protocols::common::MessageParseError;
use iex_protocols::tops_latest::{
    AuctionType, ImbalanceSide, LULDTier, MessageEnum, MessageType, OwnedMessageEnum, PriceType,
    QuoteFlags, SaleConditionFlags, SecurityDirectoryFlags, SystemEventIdentifier,
    TradingStatusIdentifier,
};

fn quote_update() -> Vec<u8> {
    let mut m = vec![0x51u8, 0x40];
    m.extend_from_slice(&1_580_000_000_000_000_000i64.to_le_bytes());
    m.extend_from_slice(b"ZIEXT   ");
    m.extend_from_slice(&9700u32.to_le_bytes());
    m.extend_from_slice(&998_000i64.to_le_bytes());
    m.extend_from_slice(&1_000_500i64.to_le_bytes());
    m.extend_from_slice(&1100u32.to_le_bytes());
    m
}

#[test]
fn quote_update_is_parsed() {
    let bytes = quote_update();
    assert_eq!(bytes.len(), 42);
    match MessageEnum::parse_packet(&bytes).unwrap() {
        MessageEnum::QuoteUpdate(q) => {
            assert_eq!(q.flags, QuoteFlags::PreMarket());
            assert_eq!(q.timestamp.0.to_native(), 1_580_000_000_000_000_000);
            assert_eq!(q.symbol.as_str(), "ZIEXT");
            assert_eq!(q.bid_size.to_native(), 9700);
            assert_eq!(q.bid_price.0.to_native(), 998_000);
            assert_eq!(q.ask_price.0.to_native(), 1_000_500);
            assert_eq!(q.ask_size.to_native(), 1100);
        }
        other => panic!("unexpected {:?}", other),
    }
}

#[test]
fn trailing_bytes_are_ignored() {
    let bytes = quote_update();
    let first = MessageEnum::parse_packet(&bytes).unwrap();
    let mut longer = bytes.clone();
    longer.extend_from_slice(&[1, 2, 3, 4]);
    assert_eq!(MessageEnum::parse_packet(&longer).unwrap(), first);
}

#[test]
fn unknown_type_is_unknown_even_with_more_bytes() {
    assert_eq!(MessageEnum::parse_packet(&[0x99]), Err(MessageParseError::Unknown));
    assert_eq!(MessageEnum::parse_packet(&[0x99, 1, 2, 3]), Err(MessageParseError::Unknown));
}

#[test]
fn empty_is_invalid() {
    assert_eq!(MessageEnum::parse_packet(&[]), Err(MessageParseError::Invalid));
}

#[test]
fn short_message_is_invalid() {
    let bytes = quote_update();
    assert_eq!(MessageEnum::parse_packet(&bytes[..41]), Err(MessageParseError::Invalid));
    assert_eq!(MessageEnum::parse_packet(&bytes[..1]), Err(MessageParseError::Invalid));
}

#[test]
fn non_ascii_symbol_is_invalid() {
    let mut bytes = quote_update();
    bytes[12] = 0x80;
    assert_eq!(MessageEnum::parse_packet(&bytes), Err(MessageParseError::Invalid));
}

#[test]
fn system_event_is_parsed() {
    let mut m = vec![0x53u8, 0x52];
    m.extend_from_slice(&5i64.to_le_bytes());
    match MessageEnum::parse_packet(&m).unwrap() {
        MessageEnum::SystemEvent(e) => {
            assert_eq!(e.system_event, SystemEventIdentifier::StartofRegularMarketHours);
            assert_eq!(e.timestamp.0.to_native(), 5);
        }
        other => panic!("unexpected {:?}", other),
    }
}

#[test]
fn unknown_system_event_code_is_invalid() {
    let mut m = vec![0x53u8, 0x00];
    m.extend_from_slice(&5i64.to_le_bytes());
    assert_eq!(MessageEnum::parse_packet(&m), Err(MessageParseError::Invalid));
}

#[test]
fn trading_status_with_reason() {
    let mut m = vec![0x48u8, 0x4f];
    m.extend_from_slice(&1i64.to_le_bytes());
    m.extend_from_slice(b"AAPL    ");
    m.extend_from_slice(b"T1  ");
    match MessageEnum::parse_packet(&m).unwrap() {
        MessageEnum::TradingStatus(t) => {
            assert_eq!(t.trading_status, TradingStatusIdentifier::Resumed);
            assert_eq!(t.symbol.as_str(), "AAPL");
            assert_eq!(t.reason.as_str(), "T1");
        }
        other => panic!("unexpected {:?}", other),
    }
    let mut bad = m.clone();
    bad[21] = 0xff;
    assert_eq!(MessageEnum::parse_packet(&bad), Err(MessageParseError::Invalid));
}

#[test]
fn trade_report_and_security_directory() {
    let mut t = vec![0x54u8, 0x80 | 0x20];
    t.extend_from_slice(&9i64.to_le_bytes());
    t.extend_from_slice(b"ZIEXT   ");
    t.extend_from_slice(&100u32.to_le_bytes());
    t.extend_from_slice(&995_000i64.to_le_bytes());
    t.extend_from_slice(&(-7i64).to_le_bytes());
    match MessageEnum::parse_packet(&t).unwrap() {
        MessageEnum::TradeReportMessage(r) => {
            assert!(r.sale_condition_flags.contains(SaleConditionFlags::IntermarketSweep()));
            assert!(r.sale_condition_flags.contains(SaleConditionFlags::OddLotFlag()));
            assert!(!r.sale_condition_flags.contains(SaleConditionFlags::ExtendedHours()));
            assert_eq!(r.size.to_native(), 100);
            assert_eq!(r.trade_id.to_native(), -7);
        }
        other => panic!("unexpected {:?}", other),
    }
    let mut d = vec![0x44u8, 0x80];
    d.extend_from_slice(&9i64.to_le_bytes());
    d.extend_from_slice(b"ZIEXT   ");
    d.extend_from_slice(&100u32.to_le_bytes());
    d.extend_from_slice(&10_000i64.to_le_bytes());
    d.push(2);
    match MessageEnum::parse_packet(&d).unwrap() {
        MessageEnum::SecurityDirectory(s) => {
            assert_eq!(s.flags, SecurityDirectoryFlags::TestSecurityFlag());
            assert_eq!(s.luld_tier, LULDTier::Tier2);
            assert_eq!(s.round_lot_size.to_native(), 100);
        }
        other => panic!("unexpected {:?}", other),
    }
}

#[test]
fn official_price_and_auction_information() {
    let mut o = vec![0x58u8, 0x4d];
    o.extend_from_slice(&9i64.to_le_bytes());
    o.extend_from_slice(b"ZIEXT   ");
    o.extend_from_slice(&1_000_000i64.to_le_bytes());
    match MessageEnum::parse_packet(&o).unwrap() {
        MessageEnum::OfficialPriceMessage(p) => assert_eq!(p.price_type, PriceType::Close),
        other => panic!("unexpected {:?}", other),
    }
    let mut a = vec![0x41u8, 0x43];
    a.extend_from_slice(&9i64.to_le_bytes());
    a.extend_from_slice(b"ZIEXT   ");
    a.extend_from_slice(&1000u32.to_le_bytes());
    a.extend_from_slice(&10i64.to_le_bytes());
    a.extend_from_slice(&11i64.to_le_bytes());
    a.extend_from_slice(&500u32.to_le_bytes());
    a.push(0x53);
    a.push(3);
    a.extend_from_slice(&1_700_000_000u32.to_le_bytes());
    for p in [12i64, 13, 14, 15] {
        a.extend_from_slice(&p.to_le_bytes());
    }
    assert_eq!(a.len(), 1 + 79);
    match MessageEnum::parse_packet(&a).unwrap() {
        MessageEnum::AuctionInformation(i) => {
            assert_eq!(i.auction_type, AuctionType::Closing);
            assert_eq!(i.imbalance_side, ImbalanceSide::Sell);
            assert_eq!(i.extension_number.to_native(), 3);
            assert_eq!(i.scheduled_auction_time.0.to_native(), 1_700_000_000);
            assert_eq!(i.upper_auction_collar.0.to_native(), 15);
        }
        other => panic!("unexpected {:?}", other),
    }
}

#[test]
fn message_type_bytes() {
    assert_eq!(MessageType::from_byte([0x51]), Some(MessageType::QuoteUpdate));
    assert!(MessageType::is_vaild([0x41]));
    assert!(!MessageType::is_vaild([0x61]));
    assert_eq!(MessageType::from_byte([0x61]), None);
    for t in [MessageType::SystemEvent, MessageType::TradeBreak, MessageType::AuctionInformation] {
        assert_eq!(MessageType::from_byte([t.to_byte()]), Some(t));
    }
}

#[test]
fn owned_and_reference_roundtrip() {
    let m = MessageEnum::parse_packet(&quote_update()).unwrap();
    let owned = OwnedMessageEnum::from_ref(m);
    assert_eq!(MessageEnum::from_owned(&owned), m);
    assert_eq!(OwnedMessageEnum::from_ref(MessageEnum::from_owned(&owned)), owned);
}

#[test]
fn flags_bits() {
    assert_eq!(QuoteFlags::all().bits(), 0xc0);
    assert_eq!(QuoteFlags::empty().bits(), 0);
    assert!(QuoteFlags::from_bits(0x01).is_none());
    assert_eq!(QuoteFlags::from_bits(0x80), Some(QuoteFlags::Halted()));
    assert_eq!(QuoteFlags::from_bits_retain(0x01).bits(), 0x01);
}

#[test]
fn flags_set_operations() {
    let h = QuoteFlags::Halted();
    let p = QuoteFlags::PreMarket();
    assert_eq!(h.union(p).bits(), 0xc0);
    assert_eq!(h.union(p).intersection(p), p);
    assert_eq!(h.union(p).difference(p), h);
    assert_eq!(h.symmetric_difference(h.union(p)), p);
    assert_eq!(h.complement(), p);
    assert!(h.intersects(h.union(p)));
    assert!(!h.intersects(p));
    assert!(QuoteFlags::empty().is_empty());
    assert!(!h.is_empty());
    assert!(h.union(p).is_all());
    assert!(!h.is_all());
    assert_eq!(QuoteFlags::from_bits_truncate(0xff).bits(), 0xc0);
}

#[test]
fn flags_in_place_updates() {
    let mut f = SaleConditionFlags::empty();
    f.insert(SaleConditionFlags::OddLotFlag());
    assert_eq!(f.bits(), 0x20);
    f.insert(SaleConditionFlags::ExtendedHours());
    assert_eq!(f.bits(), 0x60);
    f.remove(SaleConditionFlags::OddLotFlag());
    assert_eq!(f.bits(), 0x40);
    f.toggle(SaleConditionFlags::IntermarketSweep());
    assert_eq!(f.bits(), 0xc0);
    f.set(SaleConditionFlags::ExtendedHours(), false);
    assert_eq!(f.bits(), 0x80);
    f.set(SaleConditionFlags::SinglePriceCrossTrade(), true);
    assert_eq!(f.bits(), 0x88);
}
