use iex_protocols::wire_integer::{FieldKind, WireInteger};

#[test]
fn integer_names_map_to_little_wrappers() {
    let names = ["i8", "u8", "i16", "u16", "i32", "u32", "i64", "u64", "i128", "u128"];
    for name in names {
        let t = WireInteger::from_name(name).unwrap();
        assert_eq!(t.qualified_name(), format!("Little::<{}>", name));
    }
    assert_eq!(WireInteger::from_name("u32"), Some(WireInteger::U32));
}

#[test]
fn other_names_are_not_integers() {
    for name in ["Symbol", "Price", "", "u", "u33", "U32", "usize", "i64 "] {
        assert_eq!(WireInteger::from_name(name), None);
    }
}

#[test]
fn field_checks_follow_the_field_kind() {
    assert!(FieldKind::Enumerated.is_checked());
    assert!(!FieldKind::Integer(WireInteger::U32).is_checked());
    assert!(!FieldKind::Integer(WireInteger::I8).is_checked());
    assert!(FieldKind::Named { listed: true }.is_checked());
    assert!(!FieldKind::Named { listed: false }.is_checked());
}
