//! The types that a message description may give a field: the integer type names, each
//! carried in little-endian byte order (a description's `u32` stands for `Little::<u32>`),
//! and which fields a message's validity check reads.
use vstd::prelude::*;
use vstd::string::*;

verus! {

/// Integer type of a field, carried little-endian on the wire.
#[derive(Debug, Clone, Copy, PartialEq, Eq, Hash, Structural)]
pub enum WireInteger {
    I8,
    U8,
    I16,
    U16,
    I32,
    U32,
    I64,
    U64,
    I128,
    U128,
}

/// Compares the UTF-8 encodings of two strings byte by byte.
fn str_equals(a: &str, b: &str) -> (r: bool)
    ensures
        r == (a@ == b@),
{
    let x = a.as_bytes();
    let y = b.as_bytes();
    if x.len() != y.len() {
        proof {
            if a@ == b@ {
                assert(x@ == y@);
            }
        }
        return false;
    }
    let mut i: usize = 0;
    while i < x.len()
        invariant
            x@ == a.spec_bytes(),
            y@ == b.spec_bytes(),
            x@.len() == y@.len(),
            i <= x@.len(),
            forall|j: int| 0 <= j < i ==> x@[j] == y@[j],
        decreases x@.len() - i,
    {
        if x[i] != y[i] {
            proof {
                if a@ == b@ {
                    assert(x@ == y@);
                }
            }
            return false;
        }
        i += 1;
    }
    proof {
        broadcast use vstd::utf8::encode_utf8_decode_utf8;

        assert(x@ =~= y@);
        assert(vstd::utf8::decode_utf8(a.spec_bytes()) == a@);
        assert(vstd::utf8::decode_utf8(b.spec_bytes()) == b@);
    }
    true
}

impl WireInteger {
    /// The type's name as written in a description.
    pub open spec fn spec_name(self) -> Seq<char> {
        match self {
            WireInteger::I8 => seq!['i', '8'],
            WireInteger::U8 => seq!['u', '8'],
            WireInteger::I16 => seq!['i', '1', '6'],
            WireInteger::U16 => seq!['u', '1', '6'],
            WireInteger::I32 => seq!['i', '3', '2'],
            WireInteger::U32 => seq!['u', '3', '2'],
            WireInteger::I64 => seq!['i', '6', '4'],
            WireInteger::U64 => seq!['u', '6', '4'],
            WireInteger::I128 => seq!['i', '1', '2', '8'],
            WireInteger::U128 => seq!['u', '1', '2', '8'],
        }
    }

    /// The integer type named `name`, if any.
    pub open spec fn spec_from_name(name: Seq<char>) -> Option<Self> {
        if name == WireInteger::I8.spec_name() {
            Some(WireInteger::I8)
        } else if name == WireInteger::U8.spec_name() {
            Some(WireInteger::U8)
        } else if name == WireInteger::I16.spec_name() {
            Some(WireInteger::I16)
        } else if name == WireInteger::U16.spec_name() {
            Some(WireInteger::U16)
        } else if name == WireInteger::I32.spec_name() {
            Some(WireInteger::I32)
        } else if name == WireInteger::U32.spec_name() {
            Some(WireInteger::U32)
        } else if name == WireInteger::I64.spec_name() {
            Some(WireInteger::I64)
        } else if name == WireInteger::U64.spec_name() {
            Some(WireInteger::U64)
        } else if name == WireInteger::I128.spec_name() {
            Some(WireInteger::I128)
        } else if name == WireInteger::U128.spec_name() {
            Some(WireInteger::U128)
        } else {
            None
        }
    }

    /// The integer type named `name`; `None` for any other name.
    pub fn from_name(name: &str) -> (r: Option<Self>)
        ensures
            r == Self::spec_from_name(name@),
    {
        let lit = "i8";
        proof {
            reveal_strlit("i8");
            assert(lit@ =~= WireInteger::I8.spec_name());
        }
        if str_equals(name, lit) {
            return Some(WireInteger::I8);
        }
        let lit = "u8";
        proof {
            reveal_strlit("u8");
            assert(lit@ =~= WireInteger::U8.spec_name());
        }
        if str_equals(name, lit) {
            return Some(WireInteger::U8);
        }
        let lit = "i16";
        proof {
            reveal_strlit("i16");
            assert(lit@ =~= WireInteger::I16.spec_name());
        }
        if str_equals(name, lit) {
            return Some(WireInteger::I16);
        }
        let lit = "u16";
        proof {
            reveal_strlit("u16");
            assert(lit@ =~= WireInteger::U16.spec_name());
        }
        if str_equals(name, lit) {
            return Some(WireInteger::U16);
        }
        let lit = "i32";
        proof {
            reveal_strlit("i32");
            assert(lit@ =~= WireInteger::I32.spec_name());
        }
        if str_equals(name, lit) {
            return Some(WireInteger::I32);
        }
        let lit = "u32";
        proof {
            reveal_strlit("u32");
            assert(lit@ =~= WireInteger::U32.spec_name());
        }
        if str_equals(name, lit) {
            return Some(WireInteger::U32);
        }
        let lit = "i64";
        proof {
            reveal_strlit("i64");
            assert(lit@ =~= WireInteger::I64.spec_name());
        }
        if str_equals(name, lit) {
            return Some(WireInteger::I64);
        }
        let lit = "u64";
        proof {
            reveal_strlit("u64");
            assert(lit@ =~= WireInteger::U64.spec_name());
        }
        if str_equals(name, lit) {
            return Some(WireInteger::U64);
        }
        let lit = "i128";
        proof {
            reveal_strlit("i128");
            assert(lit@ =~= WireInteger::I128.spec_name());
        }
        if str_equals(name, lit) {
            return Some(WireInteger::I128);
        }
        let lit = "u128";
        proof {
            reveal_strlit("u128");
            assert(lit@ =~= WireInteger::U128.spec_name());
        }
        if str_equals(name, lit) {
            return Some(WireInteger::U128);
        }
        None
    }

    /// The name of the wrapper type that holds the field: `Little::<` the name `>`.
    pub fn qualified_name(&self) -> (r: &'static str)
        ensures
            r@ == seq!['L', 'i', 't', 't', 'l', 'e', ':', ':', '<'] + self.spec_name() + seq!['>'],
    {
        match self {
            WireInteger::I8 => {
                proof {
                    reveal_strlit("Little::<i8>");
                }
                let r = "Little::<i8>";
                assert(r@ =~= seq!['L', 'i', 't', 't', 'l', 'e', ':', ':', '<'] + self.spec_name() + seq!['>']);
                r
            },
            WireInteger::U8 => {
                proof {
                    reveal_strlit("Little::<u8>");
                }
                let r = "Little::<u8>";
                assert(r@ =~= seq!['L', 'i', 't', 't', 'l', 'e', ':', ':', '<'] + self.spec_name() + seq!['>']);
                r
            },
            WireInteger::I16 => {
                proof {
                    reveal_strlit("Little::<i16>");
                }
                let r = "Little::<i16>";
                assert(r@ =~= seq!['L', 'i', 't', 't', 'l', 'e', ':', ':', '<'] + self.spec_name() + seq!['>']);
                r
            },
            WireInteger::U16 => {
                proof {
                    reveal_strlit("Little::<u16>");
                }
                let r = "Little::<u16>";
                assert(r@ =~= seq!['L', 'i', 't', 't', 'l', 'e', ':', ':', '<'] + self.spec_name() + seq!['>']);
                r
            },
            WireInteger::I32 => {
                proof {
                    reveal_strlit("Little::<i32>");
                }
                let r = "Little::<i32>";
                assert(r@ =~= seq!['L', 'i', 't', 't', 'l', 'e', ':', ':', '<'] + self.spec_name() + seq!['>']);
                r
            },
            WireInteger::U32 => {
                proof {
                    reveal_strlit("Little::<u32>");
                }
                let r = "Little::<u32>";
                assert(r@ =~= seq!['L', 'i', 't', 't', 'l', 'e', ':', ':', '<'] + self.spec_name() + seq!['>']);
                r
            },
            WireInteger::I64 => {
                proof {
                    reveal_strlit("Little::<i64>");
                }
                let r = "Little::<i64>";
                assert(r@ =~= seq!['L', 'i', 't', 't', 'l', 'e', ':', ':', '<'] + self.spec_name() + seq!['>']);
                r
            },
            WireInteger::U64 => {
                proof {
                    reveal_strlit("Little::<u64>");
                }
                let r = "Little::<u64>";
                assert(r@ =~= seq!['L', 'i', 't', 't', 'l', 'e', ':', ':', '<'] + self.spec_name() + seq!['>']);
                r
            },
            WireInteger::I128 => {
                proof {
                    reveal_strlit("Little::<i128>");
                }
                let r = "Little::<i128>";
                assert(r@ =~= seq!['L', 'i', 't', 't', 'l', 'e', ':', ':', '<'] + self.spec_name() + seq!['>']);
                r
            },
            WireInteger::U128 => {
                proof {
                    reveal_strlit("Little::<u128>");
                }
                let r = "Little::<u128>";
                assert(r@ =~= seq!['L', 'i', 't', 't', 'l', 'e', ':', ':', '<'] + self.spec_name() + seq!['>']);
                r
            },
        }
    }
}

/// The type that a message description gives a field.
#[derive(Debug, Clone, Copy, PartialEq, Eq, Hash, Structural)]
pub enum FieldKind {
    /// An enumeration declared in the description, one byte of known codes.
    Enumerated,
    /// One of the integer types, carried little-endian.
    Integer(WireInteger),
    /// Any other named type; `listed` tells whether the description lists it among the types
    /// whose bytes must be validated.
    Named { listed: bool },
}

impl FieldKind {
    /// True when a message's validity check reads the field.
    pub open spec fn spec_is_checked(self) -> bool {
        match self {
            FieldKind::Enumerated => true,
            FieldKind::Integer(_) => false,
            FieldKind::Named { listed } => listed,
        }
    }

    /// True when a message's validity check reads the field: every enumerated field (its byte
    /// must be a known code) and every field of a listed named type; never an integer field.
    pub fn is_checked(&self) -> (r: bool)
        ensures
            r == self.spec_is_checked(),
    {
        match self {
            FieldKind::Enumerated => true,
            FieldKind::Integer(_) => false,
            FieldKind::Named { listed } => *listed,
        }
    }
}

/// Every integer type is found again from its name.
pub proof fn law_name_roundtrip(t: WireInteger)
    ensures
        WireInteger::spec_from_name(t.spec_name()) == Some(t),
{
}

} // verus!
