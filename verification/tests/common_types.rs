use iex_protocols::common::{
    EventTime, IexString, MessageParseError, Price, Reason, Symbol, Timestamp,
};
use iex_protocols::endian::Little;
use std::convert::TryFrom;
use std::time::Duration;

#[test]
fn from_bytes_pads_with_spaces() {
    let s = IexString::<8>::from_bytes(b"AAPL").unwrap();
    assert_eq!(s.as_bytes(), *b"AAPL    ");
}

#[test]
fn from_bytes_full_field() {
    let s = IexString::<4>::from_bytes(b"ABCD").unwrap();
    assert_eq!(s.as_bytes(), *b"ABCD");
    assert_eq!(s.as_str(), "ABCD");
}

#[test]
fn from_bytes_empty_is_all_spaces() {
    let s = IexString::<4>::from_bytes(b"").unwrap();
    assert_eq!(s.as_bytes(), *b"    ");
    assert_eq!(s.as_str(), "");
}

#[test]
fn from_bytes_too_long_is_none() {
    assert!(IexString::<4>::from_bytes(b"ABCDE").is_none());
}

#[test]
fn from_bytes_non_ascii_is_none() {
    assert!(IexString::<8>::from_bytes(&[0x41, 0x80]).is_none());
    assert!(IexString::<8>::from_bytes(&[0xff]).is_none());
}

#[test]
fn is_vaild_checks_every_byte() {
    assert!(IexString::<4>::is_vaild(&[0x41, 0x42, 0x20, 0x7f]));
    assert!(!IexString::<4>::is_vaild(&[0x41, 0x42, 0x20, 0x80]));
    assert!(!IexString::<4>::is_vaild(&[0x80, 0x42, 0x20, 0x20]));
}

#[test]
fn as_str_stops_at_first_space() {
    let s = IexString::<8>::from_bytes(b"AB CD").unwrap();
    assert_eq!(s.as_str(), "AB");
}

#[test]
fn from_str_then_as_str_gives_text_back() {
    for text in ["ZIEXT", "A", "", "ABCDEFGH"] {
        let s = IexString::<8>::from_str(text).unwrap();
        assert_eq!(s.as_str(), text);
    }
}

#[test]
fn as_bytes_then_from_bytes_gives_string_back() {
    let s = IexString::<8>::from_str("IBM").unwrap();
    let again = IexString::<8>::from_bytes(&s.as_bytes()).unwrap();
    assert_eq!(again, s);
}

#[test]
fn from_str_rejects_non_ascii_text() {
    assert!(IexString::<8>::from_str("é").is_none());
    assert!(IexString::<8>::from_str("TOOLONGSYM").is_none());
}

#[test]
fn symbol_from_str_and_as_str() {
    let sym = Symbol::from_str("AAPL").unwrap();
    assert_eq!(sym.as_str(), "AAPL");
    assert_eq!(sym.0.as_bytes(), *b"AAPL    ");
    assert!(Symbol::from_str("ABCDEFGHI").is_none());
}

#[test]
fn symbol_is_vaild() {
    assert!(Symbol::is_vaild(b"ZIEXT   "));
    assert!(!Symbol::is_vaild(&[0x5a, 0x49, 0x45, 0x58, 0x54, 0x20, 0x20, 0xa0]));
}

#[test]
fn reason_is_vaild_and_as_str() {
    assert!(Reason::is_vaild(b"T1  "));
    assert!(!Reason::is_vaild(&[0x54, 0x31, 0x20, 0xc0]));
    let r = Reason(IexString::<4>::from_bytes(b"IPO1").unwrap());
    assert_eq!(r.as_str(), "IPO1");
}

#[test]
fn timestamp_to_duration() {
    let ts = Timestamp(Little::<i64>::from_native(1_500_000_000_123));
    assert_eq!(Duration::try_from(ts).unwrap(), Duration::from_nanos(1_500_000_000_123));
    assert_eq!(Duration::try_from(ts).unwrap().as_secs(), 1500);
}

#[test]
fn timestamp_zero_to_duration() {
    let ts = Timestamp(Little::<i64>::from_native(0));
    assert_eq!(Duration::try_from(ts).unwrap(), Duration::ZERO);
}

#[test]
fn negative_timestamp_is_error() {
    let ts = Timestamp(Little::<i64>::from_native(-1));
    assert!(Duration::try_from(ts).is_err());
}

#[test]
fn event_time_to_duration() {
    let t = EventTime(Little::<u32>::from_native(1_700_000_000));
    assert_eq!(Duration::from(t), Duration::new(1_700_000_000, 0));
    assert_eq!(Duration::from(EventTime(Little::<u32>::from_native(u32::MAX))).as_secs(), u32::MAX as u64);
}

#[test]
fn price_add_and_sub() {
    let a = Price(Little::<i64>::from_native(1_234_500));
    let b = Price(Little::<i64>::from_native(-500));
    assert_eq!((a + b).0.to_native(), 1_234_000);
    assert_eq!((a - b).0.to_native(), 1_235_000);
}

#[test]
fn price_add_then_sub_gives_price_back() {
    let a = Price(Little::<i64>::from_native(987_654_321));
    let b = Price(Little::<i64>::from_native(123_456_789));
    assert_eq!((a + b) - b, a);
}

#[test]
fn message_parse_error_variants_differ() {
    assert_ne!(MessageParseError::Unknown, MessageParseError::Invalid);
}

#[test]
fn to_text_string_is_text_before_first_space() {
    let s = IexString::<8>::from_bytes(b"AB CD").unwrap();
    assert_eq!(s.to_text_string(), String::from("AB"));
    let full = IexString::<4>::from_bytes(b"WXYZ").unwrap();
    assert_eq!(full.to_text_string(), "WXYZ".to_string());
    assert_eq!(IexString::<4>::from_bytes(b"").unwrap().to_text_string(), String::new());
}
