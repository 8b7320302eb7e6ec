use iex_protocols::endian::{Big, Little};

#[test]
fn little_native_roundtrip() {
    assert_eq!(Little::<u16>::from_native(0x1234).to_native(), 0x1234);
    assert_eq!(Little::<i64>::from_native(-42).to_native(), -42);
    assert_eq!(Little::<u128>::from_native(u128::MAX - 7).to_native(), u128::MAX - 7);
    assert_eq!(Little::<i8>::from_native(-3).to_native(), -3);
}

#[test]
fn little_raw_is_to_le() {
    assert_eq!(Little::<u16>::from_native(0x1234).to_raw(), 0x1234u16.to_le());
    assert_eq!(Little::<u32>::from_native(0x1234_5678).to_raw(), 0x1234_5678u32.to_le());
    assert_eq!(Little::<i32>::from_raw(0x0102_0304).to_native(), i32::from_le(0x0102_0304));
}

#[test]
fn little_raw_roundtrip() {
    for raw in [0u64, 1, 0x0102_0304_0506_0708, u64::MAX] {
        assert_eq!(Little::<u64>::from_raw(raw).to_raw(), raw);
    }
    assert_eq!(Little::<i16>::from_raw(-2).to_raw(), -2);
    assert_eq!(Little::<u8>::from_raw(0xab).to_raw(), 0xab);
}

#[test]
fn big_raw_is_to_be() {
    assert_eq!(Big::<u16>::from_native(0x1234).to_raw(), 0x1234u16.to_be());
    assert_eq!(Big::<u32>::from_native(0x1234_5678).to_raw(), 0x1234_5678u32.to_be());
    assert_eq!(Big::<u64>::from_raw(0x0102_0304_0506_0708u64.to_be()).to_native(), 0x0102_0304_0506_0708);
    assert_eq!(Big::<i128>::from_native(-5).to_raw(), (-5i128).to_be());
}

#[test]
fn big_raw_roundtrip() {
    for raw in [0u32, 7, 0xdead_beef, u32::MAX] {
        assert_eq!(Big::<u32>::from_raw(raw).to_raw(), raw);
    }
    assert_eq!(Big::<i64>::from_raw(i64::MIN).to_raw(), i64::MIN);
}

#[test]
fn big_native_roundtrip() {
    assert_eq!(Big::<i16>::from_native(-300).to_native(), -300);
    assert_eq!(Big::<u8>::from_native(9).to_native(), 9);
}

#[test]
fn to_raw_swaps_bytes_on_one_side() {
    let x: u32 = 0x1122_3344;
    let le = Little::<u32>::from_native(x).to_raw();
    let be = Big::<u32>::from_native(x).to_raw();
    assert_eq!(le.swap_bytes(), be);
}
