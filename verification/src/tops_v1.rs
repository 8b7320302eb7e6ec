//! TOPS: top of book quotes and last sale messages.
use vstd::prelude::*;
use crate::common::{EventTime, IexString, MessageParseError, Price, Reason, Symbol, Timestamp, TradeId, all_ascii};
use crate::endian::Little;
use crate::wire::{copy_field, i64_le_at, read_i64_le, read_u32_le, u32_le_at};

verus! {

/// Sale condition flags of a trade.
#[derive(Debug, Clone, Copy, PartialEq, Eq, Hash)]
pub struct SaleConditionFlags(u8);

impl View for SaleConditionFlags {
    type V = u8;

    /// The flag bits.
    closed spec fn view(&self) -> u8 {
        self.0
    }
}

impl SaleConditionFlags {
    /// The bits of all defined flags.
    pub open spec fn spec_all_bits() -> u8 {
        0xf8
    }

    /// The flag with bit 0x80.
    #[allow(non_snake_case)]
    pub fn IntermarketSweep() -> (r: Self)
        ensures
            r@ == 0x80,
    {
        Self(0x80)
    }

    /// The flag with bit 0x40.
    #[allow(non_snake_case)]
    pub fn ExtendedHours() -> (r: Self)
        ensures
            r@ == 0x40,
    {
        Self(0x40)
    }

    /// The flag with bit 0x20.
    #[allow(non_snake_case)]
    pub fn OddLotFlag() -> (r: Self)
        ensures
            r@ == 0x20,
    {
        Self(0x20)
    }

    /// The flag with bit 0x10.
    #[allow(non_snake_case)]
    pub fn TradeThroughExempt() -> (r: Self)
        ensures
            r@ == 0x10,
    {
        Self(0x10)
    }

    /// The flag with bit 0x8.
    #[allow(non_snake_case)]
    pub fn SinglePriceCrossTrade() -> (r: Self)
        ensures
            r@ == 0x8,
    {
        Self(0x8)
    }

    /// No flag set.
    pub fn empty() -> (r: Self)
        ensures
            r@ == 0,
    {
        Self(0)
    }

    /// Every defined flag set.
    pub fn all() -> (r: Self)
        ensures
            r@ == Self::spec_all_bits(),
    {
        Self(0xf8)
    }

    /// The raw flag bits.
    pub fn bits(&self) -> (r: u8)
        ensures
            r == self@,
    {
        self.0
    }

    /// The flags with exactly the bits `bits`, unknown bits included.
    pub fn from_bits_retain(bits: u8) -> (r: Self)
        ensures
            r@ == bits,
    {
        Self(bits)
    }

    /// The flags with the bits `bits`; `None` when an unknown bit is set.
    pub fn from_bits(bits: u8) -> (r: Option<Self>)
        ensures
            r is Some <==> bits & !Self::spec_all_bits() == 0,
            r matches Some(f) ==> f@ == bits,
    {
        if bits & !0xf8u8 == 0 {
            Some(Self(bits))
        } else {
            None
        }
    }

    /// The flags with the bits `bits`, unknown bits cleared.
    pub fn from_bits_truncate(bits: u8) -> (r: Self)
        ensures
            r@ == bits & Self::spec_all_bits(),
    {
        Self(bits & 0xf8u8)
    }

    /// True when no bit is set.
    pub fn is_empty(&self) -> (r: bool)
        ensures
            r == (self@ == 0),
    {
        self.0 == 0
    }

    /// True when every defined flag is set.
    pub fn is_all(&self) -> (r: bool)
        ensures
            r == (self@ & Self::spec_all_bits() == Self::spec_all_bits()),
    {
        self.0 & 0xf8u8 == 0xf8u8
    }

    /// True when `self` and `other` share a set bit.
    pub fn intersects(&self, other: Self) -> (r: bool)
        ensures
            r == (self@ & other@ != 0),
    {
        self.0 & other.0 != 0
    }

    /// Sets the bits of `other`.
    pub fn insert(&mut self, other: Self)
        ensures
            final(self)@ == old(self)@ | other@,
    {
        self.0 = self.0 | other.0;
    }

    /// Clears the bits of `other`.
    pub fn remove(&mut self, other: Self)
        ensures
            final(self)@ == old(self)@ & !other@,
    {
        self.0 = self.0 & !other.0;
    }

    /// Flips the bits of `other`.
    pub fn toggle(&mut self, other: Self)
        ensures
            final(self)@ == old(self)@ ^ other@,
    {
        self.0 = self.0 ^ other.0;
    }

    /// Sets the bits of `other` when `value` holds, clears them otherwise.
    pub fn set(&mut self, other: Self, value: bool)
        ensures
            final(self)@ == (if value { old(self)@ | other@ } else { old(self)@ & !other@ }),
    {
        if value {
            self.insert(other);
        } else {
            self.remove(other);
        }
    }

    /// The bits set in `self` or in `other`.
    pub fn union(self, other: Self) -> (r: Self)
        ensures
            r@ == self@ | other@,
    {
        Self(self.0 | other.0)
    }

    /// The bits set in both `self` and `other`.
    pub fn intersection(self, other: Self) -> (r: Self)
        ensures
            r@ == self@ & other@,
    {
        Self(self.0 & other.0)
    }

    /// The bits set in `self` and not in `other`.
    pub fn difference(self, other: Self) -> (r: Self)
        ensures
            r@ == self@ & !other@,
    {
        Self(self.0 & !other.0)
    }

    /// The bits set in exactly one of `self` and `other`.
    pub fn symmetric_difference(self, other: Self) -> (r: Self)
        ensures
            r@ == self@ ^ other@,
    {
        Self(self.0 ^ other.0)
    }

    /// The defined flags not set in `self`.
    pub fn complement(self) -> (r: Self)
        ensures
            r@ == !self@ & Self::spec_all_bits(),
    {
        Self(!self.0 & 0xf8u8)
    }

    /// True when every flag of `other` is set in `self`.
    pub fn contains(&self, other: Self) -> (r: bool)
        ensures
            r == (self@ & other@ == other@),
    {
        self.0 & other.0 == other.0
    }

    /// The defined flags are exactly the named ones: every named flag is among them, and
    /// `all`, `from_bits`, `from_bits_truncate`, `is_all` and `complement` know no other bit.
    pub proof fn law_defined_flags()
        ensures
            Self::spec_all_bits() == (0x80u8 | 0x40u8 | 0x20u8 | 0x10u8 | 0x8u8),
            0x80u8 & Self::spec_all_bits() == 0x80u8,
            0x40u8 & Self::spec_all_bits() == 0x40u8,
            0x20u8 & Self::spec_all_bits() == 0x20u8,
            0x10u8 & Self::spec_all_bits() == 0x10u8,
            0x8u8 & Self::spec_all_bits() == 0x8u8,
    {
        assert(Self::spec_all_bits() == (0x80u8 | 0x40u8 | 0x20u8 | 0x10u8 | 0x8u8)) by (bit_vector);
        assert(0x80u8 & Self::spec_all_bits() == 0x80u8 && 0x40u8 & Self::spec_all_bits() == 0x40u8 && 0x20u8 & Self::spec_all_bits() == 0x20u8 && 0x10u8 & Self::spec_all_bits() == 0x10u8 && 0x8u8 & Self::spec_all_bits() == 0x8u8) by (bit_vector);
    }

    /// Two flag sets with the same bits are equal.
    pub proof fn lemma_view_injective(a: Self, b: Self)
        ensures
            a@ == b@ ==> a == b,
    {
    }
}

/// Flags of a security directory message.
#[derive(Debug, Clone, Copy, PartialEq, Eq, Hash)]
pub struct SecurityDirectoryFlags(u8);

impl View for SecurityDirectoryFlags {
    type V = u8;

    /// The flag bits.
    closed spec fn view(&self) -> u8 {
        self.0
    }
}

impl SecurityDirectoryFlags {
    /// The bits of all defined flags.
    pub open spec fn spec_all_bits() -> u8 {
        0xe0
    }

    /// The flag with bit 0x80.
    #[allow(non_snake_case)]
    pub fn TestSecurityFlag() -> (r: Self)
        ensures
            r@ == 0x80,
    {
        Self(0x80)
    }

    /// The flag with bit 0x40.
    #[allow(non_snake_case)]
    pub fn WhenIssuedFlag() -> (r: Self)
        ensures
            r@ == 0x40,
    {
        Self(0x40)
    }

    /// The flag with bit 0x20.
    #[allow(non_snake_case)]
    pub fn ETPFlag() -> (r: Self)
        ensures
            r@ == 0x20,
    {
        Self(0x20)
    }

    /// No flag set.
    pub fn empty() -> (r: Self)
        ensures
            r@ == 0,
    {
        Self(0)
    }

    /// Every defined flag set.
    pub fn all() -> (r: Self)
        ensures
            r@ == Self::spec_all_bits(),
    {
        Self(0xe0)
    }

    /// The raw flag bits.
    pub fn bits(&self) -> (r: u8)
        ensures
            r == self@,
    {
        self.0
    }

    /// The flags with exactly the bits `bits`, unknown bits included.
    pub fn from_bits_retain(bits: u8) -> (r: Self)
        ensures
            r@ == bits,
    {
        Self(bits)
    }

    /// The flags with the bits `bits`; `None` when an unknown bit is set.
    pub fn from_bits(bits: u8) -> (r: Option<Self>)
        ensures
            r is Some <==> bits & !Self::spec_all_bits() == 0,
            r matches Some(f) ==> f@ == bits,
    {
        if bits & !0xe0u8 == 0 {
            Some(Self(bits))
        } else {
            None
        }
    }

    /// The flags with the bits `bits`, unknown bits cleared.
    pub fn from_bits_truncate(bits: u8) -> (r: Self)
        ensures
            r@ == bits & Self::spec_all_bits(),
    {
        Self(bits & 0xe0u8)
    }

    /// True when no bit is set.
    pub fn is_empty(&self) -> (r: bool)
        ensures
            r == (self@ == 0),
    {
        self.0 == 0
    }

    /// True when every defined flag is set.
    pub fn is_all(&self) -> (r: bool)
        ensures
            r == (self@ & Self::spec_all_bits() == Self::spec_all_bits()),
    {
        self.0 & 0xe0u8 == 0xe0u8
    }

    /// True when `self` and `other` share a set bit.
    pub fn intersects(&self, other: Self) -> (r: bool)
        ensures
            r == (self@ & other@ != 0),
    {
        self.0 & other.0 != 0
    }

    /// Sets the bits of `other`.
    pub fn insert(&mut self, other: Self)
        ensures
            final(self)@ == old(self)@ | other@,
    {
        self.0 = self.0 | other.0;
    }

    /// Clears the bits of `other`.
    pub fn remove(&mut self, other: Self)
        ensures
            final(self)@ == old(self)@ & !other@,
    {
        self.0 = self.0 & !other.0;
    }

    /// Flips the bits of `other`.
    pub fn toggle(&mut self, other: Self)
        ensures
            final(self)@ == old(self)@ ^ other@,
    {
        self.0 = self.0 ^ other.0;
    }

    /// Sets the bits of `other` when `value` holds, clears them otherwise.
    pub fn set(&mut self, other: Self, value: bool)
        ensures
            final(self)@ == (if value { old(self)@ | other@ } else { old(self)@ & !other@ }),
    {
        if value {
            self.insert(other);
        } else {
            self.remove(other);
        }
    }

    /// The bits set in `self` or in `other`.
    pub fn union(self, other: Self) -> (r: Self)
        ensures
            r@ == self@ | other@,
    {
        Self(self.0 | other.0)
    }

    /// The bits set in both `self` and `other`.
    pub fn intersection(self, other: Self) -> (r: Self)
        ensures
            r@ == self@ & other@,
    {
        Self(self.0 & other.0)
    }

    /// The bits set in `self` and not in `other`.
    pub fn difference(self, other: Self) -> (r: Self)
        ensures
            r@ == self@ & !other@,
    {
        Self(self.0 & !other.0)
    }

    /// The bits set in exactly one of `self` and `other`.
    pub fn symmetric_difference(self, other: Self) -> (r: Self)
        ensures
            r@ == self@ ^ other@,
    {
        Self(self.0 ^ other.0)
    }

    /// The defined flags not set in `self`.
    pub fn complement(self) -> (r: Self)
        ensures
            r@ == !self@ & Self::spec_all_bits(),
    {
        Self(!self.0 & 0xe0u8)
    }

    /// True when every flag of `other` is set in `self`.
    pub fn contains(&self, other: Self) -> (r: bool)
        ensures
            r == (self@ & other@ == other@),
    {
        self.0 & other.0 == other.0
    }

    /// The defined flags are exactly the named ones: every named flag is among them, and
    /// `all`, `from_bits`, `from_bits_truncate`, `is_all` and `complement` know no other bit.
    pub proof fn law_defined_flags()
        ensures
            Self::spec_all_bits() == (0x80u8 | 0x40u8 | 0x20u8),
            0x80u8 & Self::spec_all_bits() == 0x80u8,
            0x40u8 & Self::spec_all_bits() == 0x40u8,
            0x20u8 & Self::spec_all_bits() == 0x20u8,
    {
        assert(Self::spec_all_bits() == (0x80u8 | 0x40u8 | 0x20u8)) by (bit_vector);
        assert(0x80u8 & Self::spec_all_bits() == 0x80u8 && 0x40u8 & Self::spec_all_bits() == 0x40u8 && 0x20u8 & Self::spec_all_bits() == 0x20u8) by (bit_vector);
    }

    /// Two flag sets with the same bits are equal.
    pub proof fn lemma_view_injective(a: Self, b: Self)
        ensures
            a@ == b@ ==> a == b,
    {
    }
}

/// Flags of a quote update.
#[derive(Debug, Clone, Copy, PartialEq, Eq, Hash)]
pub struct QuoteFlags(u8);

impl View for QuoteFlags {
    type V = u8;

    /// The flag bits.
    closed spec fn view(&self) -> u8 {
        self.0
    }
}

impl QuoteFlags {
    /// The bits of all defined flags.
    pub open spec fn spec_all_bits() -> u8 {
        0xc0
    }

    /// The flag with bit 0x80.
    #[allow(non_snake_case)]
    pub fn Halted() -> (r: Self)
        ensures
            r@ == 0x80,
    {
        Self(0x80)
    }

    /// The flag with bit 0x40.
    #[allow(non_snake_case)]
    pub fn PreMarket() -> (r: Self)
        ensures
            r@ == 0x40,
    {
        Self(0x40)
    }

    /// No flag set.
    pub fn empty() -> (r: Self)
        ensures
            r@ == 0,
    {
        Self(0)
    }

    /// Every defined flag set.
    pub fn all() -> (r: Self)
        ensures
            r@ == Self::spec_all_bits(),
    {
        Self(0xc0)
    }

    /// The raw flag bits.
    pub fn bits(&self) -> (r: u8)
        ensures
            r == self@,
    {
        self.0
    }

    /// The flags with exactly the bits `bits`, unknown bits included.
    pub fn from_bits_retain(bits: u8) -> (r: Self)
        ensures
            r@ == bits,
    {
        Self(bits)
    }

    /// The flags with the bits `bits`; `None` when an unknown bit is set.
    pub fn from_bits(bits: u8) -> (r: Option<Self>)
        ensures
            r is Some <==> bits & !Self::spec_all_bits() == 0,
            r matches Some(f) ==> f@ == bits,
    {
        if bits & !0xc0u8 == 0 {
            Some(Self(bits))
        } else {
            None
        }
    }

    /// The flags with the bits `bits`, unknown bits cleared.
    pub fn from_bits_truncate(bits: u8) -> (r: Self)
        ensures
            r@ == bits & Self::spec_all_bits(),
    {
        Self(bits & 0xc0u8)
    }

    /// True when no bit is set.
    pub fn is_empty(&self) -> (r: bool)
        ensures
            r == (self@ == 0),
    {
        self.0 == 0
    }

    /// True when every defined flag is set.
    pub fn is_all(&self) -> (r: bool)
        ensures
            r == (self@ & Self::spec_all_bits() == Self::spec_all_bits()),
    {
        self.0 & 0xc0u8 == 0xc0u8
    }

    /// True when `self` and `other` share a set bit.
    pub fn intersects(&self, other: Self) -> (r: bool)
        ensures
            r == (self@ & other@ != 0),
    {
        self.0 & other.0 != 0
    }

    /// Sets the bits of `other`.
    pub fn insert(&mut self, other: Self)
        ensures
            final(self)@ == old(self)@ | other@,
    {
        self.0 = self.0 | other.0;
    }

    /// Clears the bits of `other`.
    pub fn remove(&mut self, other: Self)
        ensures
            final(self)@ == old(self)@ & !other@,
    {
        self.0 = self.0 & !other.0;
    }

    /// Flips the bits of `other`.
    pub fn toggle(&mut self, other: Self)
        ensures
            final(self)@ == old(self)@ ^ other@,
    {
        self.0 = self.0 ^ other.0;
    }

    /// Sets the bits of `other` when `value` holds, clears them otherwise.
    pub fn set(&mut self, other: Self, value: bool)
        ensures
            final(self)@ == (if value { old(self)@ | other@ } else { old(self)@ & !other@ }),
    {
        if value {
            self.insert(other);
        } else {
            self.remove(other);
        }
    }

    /// The bits set in `self` or in `other`.
    pub fn union(self, other: Self) -> (r: Self)
        ensures
            r@ == self@ | other@,
    {
        Self(self.0 | other.0)
    }

    /// The bits set in both `self` and `other`.
    pub fn intersection(self, other: Self) -> (r: Self)
        ensures
            r@ == self@ & other@,
    {
        Self(self.0 & other.0)
    }

    /// The bits set in `self` and not in `other`.
    pub fn difference(self, other: Self) -> (r: Self)
        ensures
            r@ == self@ & !other@,
    {
        Self(self.0 & !other.0)
    }

    /// The bits set in exactly one of `self` and `other`.
    pub fn symmetric_difference(self, other: Self) -> (r: Self)
        ensures
            r@ == self@ ^ other@,
    {
        Self(self.0 ^ other.0)
    }

    /// The defined flags not set in `self`.
    pub fn complement(self) -> (r: Self)
        ensures
            r@ == !self@ & Self::spec_all_bits(),
    {
        Self(!self.0 & 0xc0u8)
    }

    /// True when every flag of `other` is set in `self`.
    pub fn contains(&self, other: Self) -> (r: bool)
        ensures
            r == (self@ & other@ == other@),
    {
        self.0 & other.0 == other.0
    }

    /// The defined flags are exactly the named ones: every named flag is among them, and
    /// `all`, `from_bits`, `from_bits_truncate`, `is_all` and `complement` know no other bit.
    pub proof fn law_defined_flags()
        ensures
            Self::spec_all_bits() == (0x80u8 | 0x40u8),
            0x80u8 & Self::spec_all_bits() == 0x80u8,
            0x40u8 & Self::spec_all_bits() == 0x40u8,
    {
        assert(Self::spec_all_bits() == (0x80u8 | 0x40u8)) by (bit_vector);
        assert(0x80u8 & Self::spec_all_bits() == 0x80u8 && 0x40u8 & Self::spec_all_bits() == 0x40u8) by (bit_vector);
    }

    /// Two flag sets with the same bits are equal.
    pub proof fn lemma_view_injective(a: Self, b: Self)
        ensures
            a@ == b@ ==> a == b,
    {
    }
}

/// Field `system_event` of `SystemEvent`.
#[derive(Debug, Clone, Copy, PartialEq, Eq, Hash, Structural)]
pub enum SystemEventIdentifier {
    StartofMessage,
    StartofSystemHours,
    StartofRegularMarketHours,
    EndofRegularMarketHours,
    EndofSystemHours,
    EndofMessages,
}

impl SystemEventIdentifier {
    /// The code of the value on the wire.
    pub open spec fn spec_to_byte(self) -> u8 {
        match self {
            SystemEventIdentifier::StartofMessage => 0x4f,
            SystemEventIdentifier::StartofSystemHours => 0x53,
            SystemEventIdentifier::StartofRegularMarketHours => 0x52,
            SystemEventIdentifier::EndofRegularMarketHours => 0x4d,
            SystemEventIdentifier::EndofSystemHours => 0x45,
            SystemEventIdentifier::EndofMessages => 0x43,
        }
    }

    /// The value whose code is `byte`, if any.
    pub open spec fn spec_from_byte(byte: u8) -> Option<Self> {
        if byte == 0x4f {
            Some(SystemEventIdentifier::StartofMessage)
        } else if byte == 0x53 {
            Some(SystemEventIdentifier::StartofSystemHours)
        } else if byte == 0x52 {
            Some(SystemEventIdentifier::StartofRegularMarketHours)
        } else if byte == 0x4d {
            Some(SystemEventIdentifier::EndofRegularMarketHours)
        } else if byte == 0x45 {
            Some(SystemEventIdentifier::EndofSystemHours)
        } else if byte == 0x43 {
            Some(SystemEventIdentifier::EndofMessages)
        } else {
            None
        }
    }

    /// The code of the value on the wire.
    pub fn to_byte(&self) -> (r: u8)
        ensures
            r == self.spec_to_byte(),
            Self::spec_from_byte(r) == Some(*self),
    {
        match self {
            SystemEventIdentifier::StartofMessage => 0x4f,
            SystemEventIdentifier::StartofSystemHours => 0x53,
            SystemEventIdentifier::StartofRegularMarketHours => 0x52,
            SystemEventIdentifier::EndofRegularMarketHours => 0x4d,
            SystemEventIdentifier::EndofSystemHours => 0x45,
            SystemEventIdentifier::EndofMessages => 0x43,
        }
    }

    /// True when `byte[0]` is the code of a value.
    pub fn is_vaild(byte: [u8; 1]) -> (r: bool)
        ensures
            r == Self::spec_from_byte(byte@[0]) is Some,
    {
        (SystemEventIdentifier::StartofMessage.to_byte() == byte[0]) || (SystemEventIdentifier::StartofSystemHours.to_byte() == byte[0]) || (SystemEventIdentifier::StartofRegularMarketHours.to_byte() == byte[0]) || (SystemEventIdentifier::EndofRegularMarketHours.to_byte() == byte[0]) || (SystemEventIdentifier::EndofSystemHours.to_byte() == byte[0]) || (SystemEventIdentifier::EndofMessages.to_byte() == byte[0]) || false
    }

    fn from_byte(byte: u8) -> (r: Option<Self>)
        ensures
            r == Self::spec_from_byte(byte),
            r matches Some(v) ==> v.spec_to_byte() == byte,
    {
        if byte == 0x4f {
            Some(SystemEventIdentifier::StartofMessage)
        } else if byte == 0x53 {
            Some(SystemEventIdentifier::StartofSystemHours)
        } else if byte == 0x52 {
            Some(SystemEventIdentifier::StartofRegularMarketHours)
        } else if byte == 0x4d {
            Some(SystemEventIdentifier::EndofRegularMarketHours)
        } else if byte == 0x45 {
            Some(SystemEventIdentifier::EndofSystemHours)
        } else if byte == 0x43 {
            Some(SystemEventIdentifier::EndofMessages)
        } else {
            None
        }
    }

    /// The wire codes of `SystemEventIdentifier`: each value is read from exactly one byte, its code, and
    /// every other byte is rejected.
    pub proof fn law_wire_codes(byte: u8)
        ensures
            (Self::spec_from_byte(byte) == Some(SystemEventIdentifier::StartofMessage)) <==> byte == 0x4f,
            (Self::spec_from_byte(byte) == Some(SystemEventIdentifier::StartofSystemHours)) <==> byte == 0x53,
            (Self::spec_from_byte(byte) == Some(SystemEventIdentifier::StartofRegularMarketHours)) <==> byte == 0x52,
            (Self::spec_from_byte(byte) == Some(SystemEventIdentifier::EndofRegularMarketHours)) <==> byte == 0x4d,
            (Self::spec_from_byte(byte) == Some(SystemEventIdentifier::EndofSystemHours)) <==> byte == 0x45,
            (Self::spec_from_byte(byte) == Some(SystemEventIdentifier::EndofMessages)) <==> byte == 0x43,
            Self::spec_from_byte(byte) is None <==> (byte != 0x4f && byte != 0x53 && byte != 0x52 && byte != 0x4d && byte != 0x45 && byte != 0x43),
            SystemEventIdentifier::StartofMessage.spec_to_byte() == 0x4f,
            SystemEventIdentifier::StartofSystemHours.spec_to_byte() == 0x53,
            SystemEventIdentifier::StartofRegularMarketHours.spec_to_byte() == 0x52,
            SystemEventIdentifier::EndofRegularMarketHours.spec_to_byte() == 0x4d,
            SystemEventIdentifier::EndofSystemHours.spec_to_byte() == 0x45,
            SystemEventIdentifier::EndofMessages.spec_to_byte() == 0x43,
    {
    }
}

/// Message of type 0x53, 9 bytes on the wire after the type byte.
#[derive(Debug, Clone, Copy, PartialEq, Eq, Hash)]
pub struct SystemEvent {
    pub system_event: SystemEventIdentifier,
    pub timestamp: Timestamp,
}

impl SystemEvent {
    /// The message type byte.
    pub const MESSAGE_TYPE: u8 = 0x53;

    /// The message's size on the wire, after the type byte.
    pub const SIZE: usize = 9;

    /// True when the enumerated fields of the encoded message `s` hold known codes and its
    /// string fields are ASCII.
    pub open spec fn spec_is_vaild(s: Seq<u8>) -> bool {
        &&& SystemEventIdentifier::spec_from_byte(s[0]) is Some
    }

    /// True when the fields of `self` are those encoded in `s`.
    pub open spec fn decoded_from(self, s: Seq<u8>) -> bool {
        &&& SystemEventIdentifier::spec_from_byte(s[0]) == Some(self.system_event)
        &&& self.timestamp.0@ == i64_le_at(s, 1)
    }

    /// True when the encoded message `bytes` can be read as a message of this type.
    pub fn is_vaild(bytes: &[u8; 9]) -> (r: bool)
        ensures
            r == Self::spec_is_vaild(bytes@),
    {
        SystemEventIdentifier::is_vaild([bytes[0]])
    }

    fn decode(bytes: &[u8; 9]) -> (r: Self)
        requires
            Self::spec_is_vaild(bytes@),
        ensures
            r.decoded_from(bytes@),
    {
        let b = bytes.as_slice();
        SystemEvent {
            system_event: match SystemEventIdentifier::from_byte(b[0]) {
                Some(v) => v,
                None => SystemEventIdentifier::StartofMessage,
            },
            timestamp: Timestamp(Little::<i64>::from_native(read_i64_le(b, 1))),
        }
    }

    /// A message is determined by the bytes it is decoded from.
    pub proof fn lemma_decoded_from_unique(a: Self, c: Self, s: Seq<u8>)
        requires
            a.decoded_from(s),
            c.decoded_from(s),
        ensures
            a == c,
    {
        Little::<i64>::lemma_view_injective(a.timestamp.0, c.timestamp.0);
    }
}

/// Field `luld_tier` of `SecurityDirectory`.
#[derive(Debug, Clone, Copy, PartialEq, Eq, Hash, Structural)]
pub enum LULDTier {
    Notapplicable,
    Tier1,
    Tier2,
}

impl LULDTier {
    /// The code of the value on the wire.
    pub open spec fn spec_to_byte(self) -> u8 {
        match self {
            LULDTier::Notapplicable => 0x0,
            LULDTier::Tier1 => 0x1,
            LULDTier::Tier2 => 0x2,
        }
    }

    /// The value whose code is `byte`, if any.
    pub open spec fn spec_from_byte(byte: u8) -> Option<Self> {
        if byte == 0x0 {
            Some(LULDTier::Notapplicable)
        } else if byte == 0x1 {
            Some(LULDTier::Tier1)
        } else if byte == 0x2 {
            Some(LULDTier::Tier2)
        } else {
            None
        }
    }

    /// The code of the value on the wire.
    pub fn to_byte(&self) -> (r: u8)
        ensures
            r == self.spec_to_byte(),
            Self::spec_from_byte(r) == Some(*self),
    {
        match self {
            LULDTier::Notapplicable => 0x0,
            LULDTier::Tier1 => 0x1,
            LULDTier::Tier2 => 0x2,
        }
    }

    /// True when `byte[0]` is the code of a value.
    pub fn is_vaild(byte: [u8; 1]) -> (r: bool)
        ensures
            r == Self::spec_from_byte(byte@[0]) is Some,
    {
        (LULDTier::Notapplicable.to_byte() == byte[0]) || (LULDTier::Tier1.to_byte() == byte[0]) || (LULDTier::Tier2.to_byte() == byte[0]) || false
    }

    fn from_byte(byte: u8) -> (r: Option<Self>)
        ensures
            r == Self::spec_from_byte(byte),
            r matches Some(v) ==> v.spec_to_byte() == byte,
    {
        if byte == 0x0 {
            Some(LULDTier::Notapplicable)
        } else if byte == 0x1 {
            Some(LULDTier::Tier1)
        } else if byte == 0x2 {
            Some(LULDTier::Tier2)
        } else {
            None
        }
    }

    /// The wire codes of `LULDTier`: each value is read from exactly one byte, its code, and
    /// every other byte is rejected.
    pub proof fn law_wire_codes(byte: u8)
        ensures
            (Self::spec_from_byte(byte) == Some(LULDTier::Notapplicable)) <==> byte == 0x0,
            (Self::spec_from_byte(byte) == Some(LULDTier::Tier1)) <==> byte == 0x1,
            (Self::spec_from_byte(byte) == Some(LULDTier::Tier2)) <==> byte == 0x2,
            Self::spec_from_byte(byte) is None <==> (byte != 0x0 && byte != 0x1 && byte != 0x2),
            LULDTier::Notapplicable.spec_to_byte() == 0x0,
            LULDTier::Tier1.spec_to_byte() == 0x1,
            LULDTier::Tier2.spec_to_byte() == 0x2,
    {
    }
}

/// Message of type 0x44, 30 bytes on the wire after the type byte.
#[derive(Debug, Clone, Copy, PartialEq, Eq, Hash)]
pub struct SecurityDirectory {
    pub flags: SecurityDirectoryFlags,
    pub timestamp: Timestamp,
    pub symbol: Symbol,
    pub round_lot_size: Little<u32>,
    pub adjusted_poc_price: Price,
    pub luld_tier: LULDTier,
}

impl SecurityDirectory {
    /// The message type byte.
    pub const MESSAGE_TYPE: u8 = 0x44;

    /// The message's size on the wire, after the type byte.
    pub const SIZE: usize = 30;

    /// True when the enumerated fields of the encoded message `s` hold known codes and its
    /// string fields are ASCII.
    pub open spec fn spec_is_vaild(s: Seq<u8>) -> bool {
        &&& all_ascii(s.subrange(9, 17))
        &&& LULDTier::spec_from_byte(s[29]) is Some
    }

    /// True when the fields of `self` are those encoded in `s`.
    pub open spec fn decoded_from(self, s: Seq<u8>) -> bool {
        &&& self.flags@ == s[0]
        &&& self.timestamp.0@ == i64_le_at(s, 1)
        &&& self.symbol.0@ == s.subrange(9, 17)
        &&& self.round_lot_size@ == u32_le_at(s, 17)
        &&& self.adjusted_poc_price.0@ == i64_le_at(s, 21)
        &&& LULDTier::spec_from_byte(s[29]) == Some(self.luld_tier)
    }

    /// True when the encoded message `bytes` can be read as a message of this type.
    pub fn is_vaild(bytes: &[u8; 30]) -> (r: bool)
        ensures
            r == Self::spec_is_vaild(bytes@),
    {
        let b = bytes.as_slice();
        Symbol::is_vaild(&copy_field::<8>(b, 9)) && LULDTier::is_vaild([bytes[29]])
    }

    fn decode(bytes: &[u8; 30]) -> (r: Self)
        requires
            Self::spec_is_vaild(bytes@),
        ensures
            r.decoded_from(bytes@),
    {
        let b = bytes.as_slice();
        SecurityDirectory {
            flags: SecurityDirectoryFlags::from_bits_retain(b[0]),
            timestamp: Timestamp(Little::<i64>::from_native(read_i64_le(b, 1))),
            symbol: Symbol(IexString::<8>::from_field(b, 9)),
            round_lot_size: Little::<u32>::from_native(read_u32_le(b, 17)),
            adjusted_poc_price: Price(Little::<i64>::from_native(read_i64_le(b, 21))),
            luld_tier: match LULDTier::from_byte(b[29]) {
                Some(v) => v,
                None => LULDTier::Notapplicable,
            },
        }
    }

    /// A message is determined by the bytes it is decoded from.
    pub proof fn lemma_decoded_from_unique(a: Self, c: Self, s: Seq<u8>)
        requires
            a.decoded_from(s),
            c.decoded_from(s),
        ensures
            a == c,
    {
        SecurityDirectoryFlags::lemma_view_injective(a.flags, c.flags);
        Little::<i64>::lemma_view_injective(a.timestamp.0, c.timestamp.0);
        IexString::<8>::lemma_view_injective(a.symbol.0, c.symbol.0);
        Little::<u32>::lemma_view_injective(a.round_lot_size, c.round_lot_size);
        Little::<i64>::lemma_view_injective(a.adjusted_poc_price.0, c.adjusted_poc_price.0);
    }
}

/// Field `trading_status` of `TradingStatus`.
#[derive(Debug, Clone, Copy, PartialEq, Eq, Hash, Structural)]
pub enum TradingStatusIdentifier {
    Halted,
    Resumed,
    Paused,
    Trading,
}

impl TradingStatusIdentifier {
    /// The code of the value on the wire.
    pub open spec fn spec_to_byte(self) -> u8 {
        match self {
            TradingStatusIdentifier::Halted => 0x48,
            TradingStatusIdentifier::Resumed => 0x4f,
            TradingStatusIdentifier::Paused => 0x50,
            TradingStatusIdentifier::Trading => 0x54,
        }
    }

    /// The value whose code is `byte`, if any.
    pub open spec fn spec_from_byte(byte: u8) -> Option<Self> {
        if byte == 0x48 {
            Some(TradingStatusIdentifier::Halted)
        } else if byte == 0x4f {
            Some(TradingStatusIdentifier::Resumed)
        } else if byte == 0x50 {
            Some(TradingStatusIdentifier::Paused)
        } else if byte == 0x54 {
            Some(TradingStatusIdentifier::Trading)
        } else {
            None
        }
    }

    /// The code of the value on the wire.
    pub fn to_byte(&self) -> (r: u8)
        ensures
            r == self.spec_to_byte(),
            Self::spec_from_byte(r) == Some(*self),
    {
        match self {
            TradingStatusIdentifier::Halted => 0x48,
            TradingStatusIdentifier::Resumed => 0x4f,
            TradingStatusIdentifier::Paused => 0x50,
            TradingStatusIdentifier::Trading => 0x54,
        }
    }

    /// True when `byte[0]` is the code of a value.
    pub fn is_vaild(byte: [u8; 1]) -> (r: bool)
        ensures
            r == Self::spec_from_byte(byte@[0]) is Some,
    {
        (TradingStatusIdentifier::Halted.to_byte() == byte[0]) || (TradingStatusIdentifier::Resumed.to_byte() == byte[0]) || (TradingStatusIdentifier::Paused.to_byte() == byte[0]) || (TradingStatusIdentifier::Trading.to_byte() == byte[0]) || false
    }

    fn from_byte(byte: u8) -> (r: Option<Self>)
        ensures
            r == Self::spec_from_byte(byte),
            r matches Some(v) ==> v.spec_to_byte() == byte,
    {
        if byte == 0x48 {
            Some(TradingStatusIdentifier::Halted)
        } else if byte == 0x4f {
            Some(TradingStatusIdentifier::Resumed)
        } else if byte == 0x50 {
            Some(TradingStatusIdentifier::Paused)
        } else if byte == 0x54 {
            Some(TradingStatusIdentifier::Trading)
        } else {
            None
        }
    }

    /// The wire codes of `TradingStatusIdentifier`: each value is read from exactly one byte, its code, and
    /// every other byte is rejected.
    pub proof fn law_wire_codes(byte: u8)
        ensures
            (Self::spec_from_byte(byte) == Some(TradingStatusIdentifier::Halted)) <==> byte == 0x48,
            (Self::spec_from_byte(byte) == Some(TradingStatusIdentifier::Resumed)) <==> byte == 0x4f,
            (Self::spec_from_byte(byte) == Some(TradingStatusIdentifier::Paused)) <==> byte == 0x50,
            (Self::spec_from_byte(byte) == Some(TradingStatusIdentifier::Trading)) <==> byte == 0x54,
            Self::spec_from_byte(byte) is None <==> (byte != 0x48 && byte != 0x4f && byte != 0x50 && byte != 0x54),
            TradingStatusIdentifier::Halted.spec_to_byte() == 0x48,
            TradingStatusIdentifier::Resumed.spec_to_byte() == 0x4f,
            TradingStatusIdentifier::Paused.spec_to_byte() == 0x50,
            TradingStatusIdentifier::Trading.spec_to_byte() == 0x54,
    {
    }
}

/// Message of type 0x48, 21 bytes on the wire after the type byte.
#[derive(Debug, Clone, Copy, PartialEq, Eq, Hash)]
pub struct TradingStatus {
    pub trading_status: TradingStatusIdentifier,
    pub timestamp: Timestamp,
    pub symbol: Symbol,
    pub reason: Reason,
}

impl TradingStatus {
    /// The message type byte.
    pub const MESSAGE_TYPE: u8 = 0x48;

    /// The message's size on the wire, after the type byte.
    pub const SIZE: usize = 21;

    /// True when the enumerated fields of the encoded message `s` hold known codes and its
    /// string fields are ASCII.
    pub open spec fn spec_is_vaild(s: Seq<u8>) -> bool {
        &&& TradingStatusIdentifier::spec_from_byte(s[0]) is Some
        &&& all_ascii(s.subrange(9, 17))
        &&& all_ascii(s.subrange(17, 21))
    }

    /// True when the fields of `self` are those encoded in `s`.
    pub open spec fn decoded_from(self, s: Seq<u8>) -> bool {
        &&& TradingStatusIdentifier::spec_from_byte(s[0]) == Some(self.trading_status)
        &&& self.timestamp.0@ == i64_le_at(s, 1)
        &&& self.symbol.0@ == s.subrange(9, 17)
        &&& self.reason.0@ == s.subrange(17, 21)
    }

    /// True when the encoded message `bytes` can be read as a message of this type.
    pub fn is_vaild(bytes: &[u8; 21]) -> (r: bool)
        ensures
            r == Self::spec_is_vaild(bytes@),
    {
        let b = bytes.as_slice();
        TradingStatusIdentifier::is_vaild([bytes[0]]) && Symbol::is_vaild(&copy_field::<8>(b, 9)) && Reason::is_vaild(&copy_field::<4>(b, 17))
    }

    fn decode(bytes: &[u8; 21]) -> (r: Self)
        requires
            Self::spec_is_vaild(bytes@),
        ensures
            r.decoded_from(bytes@),
    {
        let b = bytes.as_slice();
        TradingStatus {
            trading_status: match TradingStatusIdentifier::from_byte(b[0]) {
                Some(v) => v,
                None => TradingStatusIdentifier::Halted,
            },
            timestamp: Timestamp(Little::<i64>::from_native(read_i64_le(b, 1))),
            symbol: Symbol(IexString::<8>::from_field(b, 9)),
            reason: Reason(IexString::<4>::from_field(b, 17)),
        }
    }

    /// A message is determined by the bytes it is decoded from.
    pub proof fn lemma_decoded_from_unique(a: Self, c: Self, s: Seq<u8>)
        requires
            a.decoded_from(s),
            c.decoded_from(s),
        ensures
            a == c,
    {
        Little::<i64>::lemma_view_injective(a.timestamp.0, c.timestamp.0);
        IexString::<8>::lemma_view_injective(a.symbol.0, c.symbol.0);
        IexString::<4>::lemma_view_injective(a.reason.0, c.reason.0);
    }
}

/// Field `retail_liquidity_indicator` of `RetailLiquidityIndicator`.
#[derive(Debug, Clone, Copy, PartialEq, Eq, Hash, Structural)]
pub enum RetailLiquidityIndicatorIdentifier {
    NotApplicable,
    Buy,
    Sell,
    BuySell,
}

impl RetailLiquidityIndicatorIdentifier {
    /// The code of the value on the wire.
    pub open spec fn spec_to_byte(self) -> u8 {
        match self {
            RetailLiquidityIndicatorIdentifier::NotApplicable => 0x20,
            RetailLiquidityIndicatorIdentifier::Buy => 0x41,
            RetailLiquidityIndicatorIdentifier::Sell => 0x42,
            RetailLiquidityIndicatorIdentifier::BuySell => 0x43,
        }
    }

    /// The value whose code is `byte`, if any.
    pub open spec fn spec_from_byte(byte: u8) -> Option<Self> {
        if byte == 0x20 {
            Some(RetailLiquidityIndicatorIdentifier::NotApplicable)
        } else if byte == 0x41 {
            Some(RetailLiquidityIndicatorIdentifier::Buy)
        } else if byte == 0x42 {
            Some(RetailLiquidityIndicatorIdentifier::Sell)
        } else if byte == 0x43 {
            Some(RetailLiquidityIndicatorIdentifier::BuySell)
        } else {
            None
        }
    }

    /// The code of the value on the wire.
    pub fn to_byte(&self) -> (r: u8)
        ensures
            r == self.spec_to_byte(),
            Self::spec_from_byte(r) == Some(*self),
    {
        match self {
            RetailLiquidityIndicatorIdentifier::NotApplicable => 0x20,
            RetailLiquidityIndicatorIdentifier::Buy => 0x41,
            RetailLiquidityIndicatorIdentifier::Sell => 0x42,
            RetailLiquidityIndicatorIdentifier::BuySell => 0x43,
        }
    }

    /// True when `byte[0]` is the code of a value.
    pub fn is_vaild(byte: [u8; 1]) -> (r: bool)
        ensures
            r == Self::spec_from_byte(byte@[0]) is Some,
    {
        (RetailLiquidityIndicatorIdentifier::NotApplicable.to_byte() == byte[0]) || (RetailLiquidityIndicatorIdentifier::Buy.to_byte() == byte[0]) || (RetailLiquidityIndicatorIdentifier::Sell.to_byte() == byte[0]) || (RetailLiquidityIndicatorIdentifier::BuySell.to_byte() == byte[0]) || false
    }

    fn from_byte(byte: u8) -> (r: Option<Self>)
        ensures
            r == Self::spec_from_byte(byte),
            r matches Some(v) ==> v.spec_to_byte() == byte,
    {
        if byte == 0x20 {
            Some(RetailLiquidityIndicatorIdentifier::NotApplicable)
        } else if byte == 0x41 {
            Some(RetailLiquidityIndicatorIdentifier::Buy)
        } else if byte == 0x42 {
            Some(RetailLiquidityIndicatorIdentifier::Sell)
        } else if byte == 0x43 {
            Some(RetailLiquidityIndicatorIdentifier::BuySell)
        } else {
            None
        }
    }

    /// The wire codes of `RetailLiquidityIndicatorIdentifier`: each value is read from exactly one byte, its code, and
    /// every other byte is rejected.
    pub proof fn law_wire_codes(byte: u8)
        ensures
            (Self::spec_from_byte(byte) == Some(RetailLiquidityIndicatorIdentifier::NotApplicable)) <==> byte == 0x20,
            (Self::spec_from_byte(byte) == Some(RetailLiquidityIndicatorIdentifier::Buy)) <==> byte == 0x41,
            (Self::spec_from_byte(byte) == Some(RetailLiquidityIndicatorIdentifier::Sell)) <==> byte == 0x42,
            (Self::spec_from_byte(byte) == Some(RetailLiquidityIndicatorIdentifier::BuySell)) <==> byte == 0x43,
            Self::spec_from_byte(byte) is None <==> (byte != 0x20 && byte != 0x41 && byte != 0x42 && byte != 0x43),
            RetailLiquidityIndicatorIdentifier::NotApplicable.spec_to_byte() == 0x20,
            RetailLiquidityIndicatorIdentifier::Buy.spec_to_byte() == 0x41,
            RetailLiquidityIndicatorIdentifier::Sell.spec_to_byte() == 0x42,
            RetailLiquidityIndicatorIdentifier::BuySell.spec_to_byte() == 0x43,
    {
    }
}

/// Message of type 0x49, 17 bytes on the wire after the type byte.
#[derive(Debug, Clone, Copy, PartialEq, Eq, Hash)]
pub struct RetailLiquidityIndicator {
    pub retail_liquidity_indicator: RetailLiquidityIndicatorIdentifier,
    pub timestamp: Timestamp,
    pub symbol: Symbol,
}

impl RetailLiquidityIndicator {
    /// The message type byte.
    pub const MESSAGE_TYPE: u8 = 0x49;

    /// The message's size on the wire, after the type byte.
    pub const SIZE: usize = 17;

    /// True when the enumerated fields of the encoded message `s` hold known codes and its
    /// string fields are ASCII.
    pub open spec fn spec_is_vaild(s: Seq<u8>) -> bool {
        &&& RetailLiquidityIndicatorIdentifier::spec_from_byte(s[0]) is Some
        &&& all_ascii(s.subrange(9, 17))
    }

    /// True when the fields of `self` are those encoded in `s`.
    pub open spec fn decoded_from(self, s: Seq<u8>) -> bool {
        &&& RetailLiquidityIndicatorIdentifier::spec_from_byte(s[0]) == Some(self.retail_liquidity_indicator)
        &&& self.timestamp.0@ == i64_le_at(s, 1)
        &&& self.symbol.0@ == s.subrange(9, 17)
    }

    /// True when the encoded message `bytes` can be read as a message of this type.
    pub fn is_vaild(bytes: &[u8; 17]) -> (r: bool)
        ensures
            r == Self::spec_is_vaild(bytes@),
    {
        let b = bytes.as_slice();
        RetailLiquidityIndicatorIdentifier::is_vaild([bytes[0]]) && Symbol::is_vaild(&copy_field::<8>(b, 9))
    }

    fn decode(bytes: &[u8; 17]) -> (r: Self)
        requires
            Self::spec_is_vaild(bytes@),
        ensures
            r.decoded_from(bytes@),
    {
        let b = bytes.as_slice();
        RetailLiquidityIndicator {
            retail_liquidity_indicator: match RetailLiquidityIndicatorIdentifier::from_byte(b[0]) {
                Some(v) => v,
                None => RetailLiquidityIndicatorIdentifier::NotApplicable,
            },
            timestamp: Timestamp(Little::<i64>::from_native(read_i64_le(b, 1))),
            symbol: Symbol(IexString::<8>::from_field(b, 9)),
        }
    }

    /// A message is determined by the bytes it is decoded from.
    pub proof fn lemma_decoded_from_unique(a: Self, c: Self, s: Seq<u8>)
        requires
            a.decoded_from(s),
            c.decoded_from(s),
        ensures
            a == c,
    {
        Little::<i64>::lemma_view_injective(a.timestamp.0, c.timestamp.0);
        IexString::<8>::lemma_view_injective(a.symbol.0, c.symbol.0);
    }
}

/// Field `operational_halt_status` of `OperationalHaltStatus`.
#[derive(Debug, Clone, Copy, PartialEq, Eq, Hash, Structural)]
pub enum OperationalHaltStatusIdentifier {
    Halted,
    NotHalted,
}

impl OperationalHaltStatusIdentifier {
    /// The code of the value on the wire.
    pub open spec fn spec_to_byte(self) -> u8 {
        match self {
            OperationalHaltStatusIdentifier::Halted => 0x4f,
            OperationalHaltStatusIdentifier::NotHalted => 0x4e,
        }
    }

    /// The value whose code is `byte`, if any.
    pub open spec fn spec_from_byte(byte: u8) -> Option<Self> {
        if byte == 0x4f {
            Some(OperationalHaltStatusIdentifier::Halted)
        } else if byte == 0x4e {
            Some(OperationalHaltStatusIdentifier::NotHalted)
        } else {
            None
        }
    }

    /// The code of the value on the wire.
    pub fn to_byte(&self) -> (r: u8)
        ensures
            r == self.spec_to_byte(),
            Self::spec_from_byte(r) == Some(*self),
    {
        match self {
            OperationalHaltStatusIdentifier::Halted => 0x4f,
            OperationalHaltStatusIdentifier::NotHalted => 0x4e,
        }
    }

    /// True when `byte[0]` is the code of a value.
    pub fn is_vaild(byte: [u8; 1]) -> (r: bool)
        ensures
            r == Self::spec_from_byte(byte@[0]) is Some,
    {
        (OperationalHaltStatusIdentifier::Halted.to_byte() == byte[0]) || (OperationalHaltStatusIdentifier::NotHalted.to_byte() == byte[0]) || false
    }

    fn from_byte(byte: u8) -> (r: Option<Self>)
        ensures
            r == Self::spec_from_byte(byte),
            r matches Some(v) ==> v.spec_to_byte() == byte,
    {
        if byte == 0x4f {
            Some(OperationalHaltStatusIdentifier::Halted)
        } else if byte == 0x4e {
            Some(OperationalHaltStatusIdentifier::NotHalted)
        } else {
            None
        }
    }

    /// The wire codes of `OperationalHaltStatusIdentifier`: each value is read from exactly one byte, its code, and
    /// every other byte is rejected.
    pub proof fn law_wire_codes(byte: u8)
        ensures
            (Self::spec_from_byte(byte) == Some(OperationalHaltStatusIdentifier::Halted)) <==> byte == 0x4f,
            (Self::spec_from_byte(byte) == Some(OperationalHaltStatusIdentifier::NotHalted)) <==> byte == 0x4e,
            Self::spec_from_byte(byte) is None <==> (byte != 0x4f && byte != 0x4e),
            OperationalHaltStatusIdentifier::Halted.spec_to_byte() == 0x4f,
            OperationalHaltStatusIdentifier::NotHalted.spec_to_byte() == 0x4e,
    {
    }
}

/// Message of type 0x4f, 17 bytes on the wire after the type byte.
#[derive(Debug, Clone, Copy, PartialEq, Eq, Hash)]
pub struct OperationalHaltStatus {
    pub operational_halt_status: OperationalHaltStatusIdentifier,
    pub timestamp: Timestamp,
    pub symbol: Symbol,
}

impl OperationalHaltStatus {
    /// The message type byte.
    pub const MESSAGE_TYPE: u8 = 0x4f;

    /// The message's size on the wire, after the type byte.
    pub const SIZE: usize = 17;

    /// True when the enumerated fields of the encoded message `s` hold known codes and its
    /// string fields are ASCII.
    pub open spec fn spec_is_vaild(s: Seq<u8>) -> bool {
        &&& OperationalHaltStatusIdentifier::spec_from_byte(s[0]) is Some
        &&& all_ascii(s.subrange(9, 17))
    }

    /// True when the fields of `self` are those encoded in `s`.
    pub open spec fn decoded_from(self, s: Seq<u8>) -> bool {
        &&& OperationalHaltStatusIdentifier::spec_from_byte(s[0]) == Some(self.operational_halt_status)
        &&& self.timestamp.0@ == i64_le_at(s, 1)
        &&& self.symbol.0@ == s.subrange(9, 17)
    }

    /// True when the encoded message `bytes` can be read as a message of this type.
    pub fn is_vaild(bytes: &[u8; 17]) -> (r: bool)
        ensures
            r == Self::spec_is_vaild(bytes@),
    {
        let b = bytes.as_slice();
        OperationalHaltStatusIdentifier::is_vaild([bytes[0]]) && Symbol::is_vaild(&copy_field::<8>(b, 9))
    }

    fn decode(bytes: &[u8; 17]) -> (r: Self)
        requires
            Self::spec_is_vaild(bytes@),
        ensures
            r.decoded_from(bytes@),
    {
        let b = bytes.as_slice();
        OperationalHaltStatus {
            operational_halt_status: match OperationalHaltStatusIdentifier::from_byte(b[0]) {
                Some(v) => v,
                None => OperationalHaltStatusIdentifier::Halted,
            },
            timestamp: Timestamp(Little::<i64>::from_native(read_i64_le(b, 1))),
            symbol: Symbol(IexString::<8>::from_field(b, 9)),
        }
    }

    /// A message is determined by the bytes it is decoded from.
    pub proof fn lemma_decoded_from_unique(a: Self, c: Self, s: Seq<u8>)
        requires
            a.decoded_from(s),
            c.decoded_from(s),
        ensures
            a == c,
    {
        Little::<i64>::lemma_view_injective(a.timestamp.0, c.timestamp.0);
        IexString::<8>::lemma_view_injective(a.symbol.0, c.symbol.0);
    }
}

/// Field `short_sale_status` of `ShortSalePriceTestStatus`.
#[derive(Debug, Clone, Copy, PartialEq, Eq, Hash, Structural)]
pub enum ShortSalePriceTestStatusIdentifier {
    NotinEffect,
    InEffect,
}

impl ShortSalePriceTestStatusIdentifier {
    /// The code of the value on the wire.
    pub open spec fn spec_to_byte(self) -> u8 {
        match self {
            ShortSalePriceTestStatusIdentifier::NotinEffect => 0x0,
            ShortSalePriceTestStatusIdentifier::InEffect => 0x1,
        }
    }

    /// The value whose code is `byte`, if any.
    pub open spec fn spec_from_byte(byte: u8) -> Option<Self> {
        if byte == 0x0 {
            Some(ShortSalePriceTestStatusIdentifier::NotinEffect)
        } else if byte == 0x1 {
            Some(ShortSalePriceTestStatusIdentifier::InEffect)
        } else {
            None
        }
    }

    /// The code of the value on the wire.
    pub fn to_byte(&self) -> (r: u8)
        ensures
            r == self.spec_to_byte(),
            Self::spec_from_byte(r) == Some(*self),
    {
        match self {
            ShortSalePriceTestStatusIdentifier::NotinEffect => 0x0,
            ShortSalePriceTestStatusIdentifier::InEffect => 0x1,
        }
    }

    /// True when `byte[0]` is the code of a value.
    pub fn is_vaild(byte: [u8; 1]) -> (r: bool)
        ensures
            r == Self::spec_from_byte(byte@[0]) is Some,
    {
        (ShortSalePriceTestStatusIdentifier::NotinEffect.to_byte() == byte[0]) || (ShortSalePriceTestStatusIdentifier::InEffect.to_byte() == byte[0]) || false
    }

    fn from_byte(byte: u8) -> (r: Option<Self>)
        ensures
            r == Self::spec_from_byte(byte),
            r matches Some(v) ==> v.spec_to_byte() == byte,
    {
        if byte == 0x0 {
            Some(ShortSalePriceTestStatusIdentifier::NotinEffect)
        } else if byte == 0x1 {
            Some(ShortSalePriceTestStatusIdentifier::InEffect)
        } else {
            None
        }
    }

    /// The wire codes of `ShortSalePriceTestStatusIdentifier`: each value is read from exactly one byte, its code, and
    /// every other byte is rejected.
    pub proof fn law_wire_codes(byte: u8)
        ensures
            (Self::spec_from_byte(byte) == Some(ShortSalePriceTestStatusIdentifier::NotinEffect)) <==> byte == 0x0,
            (Self::spec_from_byte(byte) == Some(ShortSalePriceTestStatusIdentifier::InEffect)) <==> byte == 0x1,
            Self::spec_from_byte(byte) is None <==> (byte != 0x0 && byte != 0x1),
            ShortSalePriceTestStatusIdentifier::NotinEffect.spec_to_byte() == 0x0,
            ShortSalePriceTestStatusIdentifier::InEffect.spec_to_byte() == 0x1,
    {
    }
}

/// Field `detail` of `ShortSalePriceTestStatus`.
#[derive(Debug, Clone, Copy, PartialEq, Eq, Hash, Structural)]
pub enum Detail {
    NoPriceTest,
    Activated,
    Continued,
    Deactivated,
    NotAvailable,
}

impl Detail {
    /// The code of the value on the wire.
    pub open spec fn spec_to_byte(self) -> u8 {
        match self {
            Detail::NoPriceTest => 0x20,
            Detail::Activated => 0x41,
            Detail::Continued => 0x43,
            Detail::Deactivated => 0x44,
            Detail::NotAvailable => 0x4e,
        }
    }

    /// The value whose code is `byte`, if any.
    pub open spec fn spec_from_byte(byte: u8) -> Option<Self> {
        if byte == 0x20 {
            Some(Detail::NoPriceTest)
        } else if byte == 0x41 {
            Some(Detail::Activated)
        } else if byte == 0x43 {
            Some(Detail::Continued)
        } else if byte == 0x44 {
            Some(Detail::Deactivated)
        } else if byte == 0x4e {
            Some(Detail::NotAvailable)
        } else {
            None
        }
    }

    /// The code of the value on the wire.
    pub fn to_byte(&self) -> (r: u8)
        ensures
            r == self.spec_to_byte(),
            Self::spec_from_byte(r) == Some(*self),
    {
        match self {
            Detail::NoPriceTest => 0x20,
            Detail::Activated => 0x41,
            Detail::Continued => 0x43,
            Detail::Deactivated => 0x44,
            Detail::NotAvailable => 0x4e,
        }
    }

    /// True when `byte[0]` is the code of a value.
    pub fn is_vaild(byte: [u8; 1]) -> (r: bool)
        ensures
            r == Self::spec_from_byte(byte@[0]) is Some,
    {
        (Detail::NoPriceTest.to_byte() == byte[0]) || (Detail::Activated.to_byte() == byte[0]) || (Detail::Continued.to_byte() == byte[0]) || (Detail::Deactivated.to_byte() == byte[0]) || (Detail::NotAvailable.to_byte() == byte[0]) || false
    }

    fn from_byte(byte: u8) -> (r: Option<Self>)
        ensures
            r == Self::spec_from_byte(byte),
            r matches Some(v) ==> v.spec_to_byte() == byte,
    {
        if byte == 0x20 {
            Some(Detail::NoPriceTest)
        } else if byte == 0x41 {
            Some(Detail::Activated)
        } else if byte == 0x43 {
            Some(Detail::Continued)
        } else if byte == 0x44 {
            Some(Detail::Deactivated)
        } else if byte == 0x4e {
            Some(Detail::NotAvailable)
        } else {
            None
        }
    }

    /// The wire codes of `Detail`: each value is read from exactly one byte, its code, and
    /// every other byte is rejected.
    pub proof fn law_wire_codes(byte: u8)
        ensures
            (Self::spec_from_byte(byte) == Some(Detail::NoPriceTest)) <==> byte == 0x20,
            (Self::spec_from_byte(byte) == Some(Detail::Activated)) <==> byte == 0x41,
            (Self::spec_from_byte(byte) == Some(Detail::Continued)) <==> byte == 0x43,
            (Self::spec_from_byte(byte) == Some(Detail::Deactivated)) <==> byte == 0x44,
            (Self::spec_from_byte(byte) == Some(Detail::NotAvailable)) <==> byte == 0x4e,
            Self::spec_from_byte(byte) is None <==> (byte != 0x20 && byte != 0x41 && byte != 0x43 && byte != 0x44 && byte != 0x4e),
            Detail::NoPriceTest.spec_to_byte() == 0x20,
            Detail::Activated.spec_to_byte() == 0x41,
            Detail::Continued.spec_to_byte() == 0x43,
            Detail::Deactivated.spec_to_byte() == 0x44,
            Detail::NotAvailable.spec_to_byte() == 0x4e,
    {
    }
}

/// Message of type 0x50, 18 bytes on the wire after the type byte.
#[derive(Debug, Clone, Copy, PartialEq, Eq, Hash)]
pub struct ShortSalePriceTestStatus {
    pub short_sale_status: ShortSalePriceTestStatusIdentifier,
    pub timestamp: Timestamp,
    pub symbol: Symbol,
    pub detail: Detail,
}

impl ShortSalePriceTestStatus {
    /// The message type byte.
    pub const MESSAGE_TYPE: u8 = 0x50;

    /// The message's size on the wire, after the type byte.
    pub const SIZE: usize = 18;

    /// True when the enumerated fields of the encoded message `s` hold known codes and its
    /// string fields are ASCII.
    pub open spec fn spec_is_vaild(s: Seq<u8>) -> bool {
        &&& ShortSalePriceTestStatusIdentifier::spec_from_byte(s[0]) is Some
        &&& all_ascii(s.subrange(9, 17))
        &&& Detail::spec_from_byte(s[17]) is Some
    }

    /// True when the fields of `self` are those encoded in `s`.
    pub open spec fn decoded_from(self, s: Seq<u8>) -> bool {
        &&& ShortSalePriceTestStatusIdentifier::spec_from_byte(s[0]) == Some(self.short_sale_status)
        &&& self.timestamp.0@ == i64_le_at(s, 1)
        &&& self.symbol.0@ == s.subrange(9, 17)
        &&& Detail::spec_from_byte(s[17]) == Some(self.detail)
    }

    /// True when the encoded message `bytes` can be read as a message of this type.
    pub fn is_vaild(bytes: &[u8; 18]) -> (r: bool)
        ensures
            r == Self::spec_is_vaild(bytes@),
    {
        let b = bytes.as_slice();
        ShortSalePriceTestStatusIdentifier::is_vaild([bytes[0]]) && Symbol::is_vaild(&copy_field::<8>(b, 9)) && Detail::is_vaild([bytes[17]])
    }

    fn decode(bytes: &[u8; 18]) -> (r: Self)
        requires
            Self::spec_is_vaild(bytes@),
        ensures
            r.decoded_from(bytes@),
    {
        let b = bytes.as_slice();
        ShortSalePriceTestStatus {
            short_sale_status: match ShortSalePriceTestStatusIdentifier::from_byte(b[0]) {
                Some(v) => v,
                None => ShortSalePriceTestStatusIdentifier::NotinEffect,
            },
            timestamp: Timestamp(Little::<i64>::from_native(read_i64_le(b, 1))),
            symbol: Symbol(IexString::<8>::from_field(b, 9)),
            detail: match Detail::from_byte(b[17]) {
                Some(v) => v,
                None => Detail::NoPriceTest,
            },
        }
    }

    /// A message is determined by the bytes it is decoded from.
    pub proof fn lemma_decoded_from_unique(a: Self, c: Self, s: Seq<u8>)
        requires
            a.decoded_from(s),
            c.decoded_from(s),
        ensures
            a == c,
    {
        Little::<i64>::lemma_view_injective(a.timestamp.0, c.timestamp.0);
        IexString::<8>::lemma_view_injective(a.symbol.0, c.symbol.0);
    }
}

/// Message of type 0x51, 41 bytes on the wire after the type byte.
#[derive(Debug, Clone, Copy, PartialEq, Eq, Hash)]
pub struct QuoteUpdate {
    pub flags: QuoteFlags,
    pub timestamp: Timestamp,
    pub symbol: Symbol,
    pub bid_size: Little<u32>,
    pub bid_price: Price,
    pub ask_price: Price,
    pub ask_size: Little<u32>,
}

impl QuoteUpdate {
    /// The message type byte.
    pub const MESSAGE_TYPE: u8 = 0x51;

    /// The message's size on the wire, after the type byte.
    pub const SIZE: usize = 41;

    /// True when the enumerated fields of the encoded message `s` hold known codes and its
    /// string fields are ASCII.
    pub open spec fn spec_is_vaild(s: Seq<u8>) -> bool {
        &&& all_ascii(s.subrange(9, 17))
    }

    /// True when the fields of `self` are those encoded in `s`.
    pub open spec fn decoded_from(self, s: Seq<u8>) -> bool {
        &&& self.flags@ == s[0]
        &&& self.timestamp.0@ == i64_le_at(s, 1)
        &&& self.symbol.0@ == s.subrange(9, 17)
        &&& self.bid_size@ == u32_le_at(s, 17)
        &&& self.bid_price.0@ == i64_le_at(s, 21)
        &&& self.ask_price.0@ == i64_le_at(s, 29)
        &&& self.ask_size@ == u32_le_at(s, 37)
    }

    /// True when the encoded message `bytes` can be read as a message of this type.
    pub fn is_vaild(bytes: &[u8; 41]) -> (r: bool)
        ensures
            r == Self::spec_is_vaild(bytes@),
    {
        let b = bytes.as_slice();
        Symbol::is_vaild(&copy_field::<8>(b, 9))
    }

    fn decode(bytes: &[u8; 41]) -> (r: Self)
        requires
            Self::spec_is_vaild(bytes@),
        ensures
            r.decoded_from(bytes@),
    {
        let b = bytes.as_slice();
        QuoteUpdate {
            flags: QuoteFlags::from_bits_retain(b[0]),
            timestamp: Timestamp(Little::<i64>::from_native(read_i64_le(b, 1))),
            symbol: Symbol(IexString::<8>::from_field(b, 9)),
            bid_size: Little::<u32>::from_native(read_u32_le(b, 17)),
            bid_price: Price(Little::<i64>::from_native(read_i64_le(b, 21))),
            ask_price: Price(Little::<i64>::from_native(read_i64_le(b, 29))),
            ask_size: Little::<u32>::from_native(read_u32_le(b, 37)),
        }
    }

    /// A message is determined by the bytes it is decoded from.
    pub proof fn lemma_decoded_from_unique(a: Self, c: Self, s: Seq<u8>)
        requires
            a.decoded_from(s),
            c.decoded_from(s),
        ensures
            a == c,
    {
        QuoteFlags::lemma_view_injective(a.flags, c.flags);
        Little::<i64>::lemma_view_injective(a.timestamp.0, c.timestamp.0);
        IexString::<8>::lemma_view_injective(a.symbol.0, c.symbol.0);
        Little::<u32>::lemma_view_injective(a.bid_size, c.bid_size);
        Little::<i64>::lemma_view_injective(a.bid_price.0, c.bid_price.0);
        Little::<i64>::lemma_view_injective(a.ask_price.0, c.ask_price.0);
        Little::<u32>::lemma_view_injective(a.ask_size, c.ask_size);
    }
}

/// Message of type 0x54, 37 bytes on the wire after the type byte.
#[derive(Debug, Clone, Copy, PartialEq, Eq, Hash)]
pub struct TradeReportMessage {
    pub sale_condition_flags: SaleConditionFlags,
    pub timestamp: Timestamp,
    pub symbol: Symbol,
    pub size: Little<u32>,
    pub price: Price,
    pub trade_id: Little<i64>,
}

impl TradeReportMessage {
    /// The message type byte.
    pub const MESSAGE_TYPE: u8 = 0x54;

    /// The message's size on the wire, after the type byte.
    pub const SIZE: usize = 37;

    /// True when the enumerated fields of the encoded message `s` hold known codes and its
    /// string fields are ASCII.
    pub open spec fn spec_is_vaild(s: Seq<u8>) -> bool {
        &&& all_ascii(s.subrange(9, 17))
    }

    /// True when the fields of `self` are those encoded in `s`.
    pub open spec fn decoded_from(self, s: Seq<u8>) -> bool {
        &&& self.sale_condition_flags@ == s[0]
        &&& self.timestamp.0@ == i64_le_at(s, 1)
        &&& self.symbol.0@ == s.subrange(9, 17)
        &&& self.size@ == u32_le_at(s, 17)
        &&& self.price.0@ == i64_le_at(s, 21)
        &&& self.trade_id@ == i64_le_at(s, 29)
    }

    /// True when the encoded message `bytes` can be read as a message of this type.
    pub fn is_vaild(bytes: &[u8; 37]) -> (r: bool)
        ensures
            r == Self::spec_is_vaild(bytes@),
    {
        let b = bytes.as_slice();
        Symbol::is_vaild(&copy_field::<8>(b, 9))
    }

    fn decode(bytes: &[u8; 37]) -> (r: Self)
        requires
            Self::spec_is_vaild(bytes@),
        ensures
            r.decoded_from(bytes@),
    {
        let b = bytes.as_slice();
        TradeReportMessage {
            sale_condition_flags: SaleConditionFlags::from_bits_retain(b[0]),
            timestamp: Timestamp(Little::<i64>::from_native(read_i64_le(b, 1))),
            symbol: Symbol(IexString::<8>::from_field(b, 9)),
            size: Little::<u32>::from_native(read_u32_le(b, 17)),
            price: Price(Little::<i64>::from_native(read_i64_le(b, 21))),
            trade_id: Little::<i64>::from_native(read_i64_le(b, 29)),
        }
    }

    /// A message is determined by the bytes it is decoded from.
    pub proof fn lemma_decoded_from_unique(a: Self, c: Self, s: Seq<u8>)
        requires
            a.decoded_from(s),
            c.decoded_from(s),
        ensures
            a == c,
    {
        SaleConditionFlags::lemma_view_injective(a.sale_condition_flags, c.sale_condition_flags);
        Little::<i64>::lemma_view_injective(a.timestamp.0, c.timestamp.0);
        IexString::<8>::lemma_view_injective(a.symbol.0, c.symbol.0);
        Little::<u32>::lemma_view_injective(a.size, c.size);
        Little::<i64>::lemma_view_injective(a.price.0, c.price.0);
        Little::<i64>::lemma_view_injective(a.trade_id, c.trade_id);
    }
}

/// Field `price_type` of `OfficialPriceMessage`.
#[derive(Debug, Clone, Copy, PartialEq, Eq, Hash, Structural)]
pub enum PriceType {
    Open,
    Close,
}

impl PriceType {
    /// The code of the value on the wire.
    pub open spec fn spec_to_byte(self) -> u8 {
        match self {
            PriceType::Open => 0x51,
            PriceType::Close => 0x4d,
        }
    }

    /// The value whose code is `byte`, if any.
    pub open spec fn spec_from_byte(byte: u8) -> Option<Self> {
        if byte == 0x51 {
            Some(PriceType::Open)
        } else if byte == 0x4d {
            Some(PriceType::Close)
        } else {
            None
        }
    }

    /// The code of the value on the wire.
    pub fn to_byte(&self) -> (r: u8)
        ensures
            r == self.spec_to_byte(),
            Self::spec_from_byte(r) == Some(*self),
    {
        match self {
            PriceType::Open => 0x51,
            PriceType::Close => 0x4d,
        }
    }

    /// True when `byte[0]` is the code of a value.
    pub fn is_vaild(byte: [u8; 1]) -> (r: bool)
        ensures
            r == Self::spec_from_byte(byte@[0]) is Some,
    {
        (PriceType::Open.to_byte() == byte[0]) || (PriceType::Close.to_byte() == byte[0]) || false
    }

    fn from_byte(byte: u8) -> (r: Option<Self>)
        ensures
            r == Self::spec_from_byte(byte),
            r matches Some(v) ==> v.spec_to_byte() == byte,
    {
        if byte == 0x51 {
            Some(PriceType::Open)
        } else if byte == 0x4d {
            Some(PriceType::Close)
        } else {
            None
        }
    }

    /// The wire codes of `PriceType`: each value is read from exactly one byte, its code, and
    /// every other byte is rejected.
    pub proof fn law_wire_codes(byte: u8)
        ensures
            (Self::spec_from_byte(byte) == Some(PriceType::Open)) <==> byte == 0x51,
            (Self::spec_from_byte(byte) == Some(PriceType::Close)) <==> byte == 0x4d,
            Self::spec_from_byte(byte) is None <==> (byte != 0x51 && byte != 0x4d),
            PriceType::Open.spec_to_byte() == 0x51,
            PriceType::Close.spec_to_byte() == 0x4d,
    {
    }
}

/// Message of type 0x58, 25 bytes on the wire after the type byte.
#[derive(Debug, Clone, Copy, PartialEq, Eq, Hash)]
pub struct OfficialPriceMessage {
    pub price_type: PriceType,
    pub timestamp: Timestamp,
    pub symbol: Symbol,
    pub official_price: Price,
}

impl OfficialPriceMessage {
    /// The message type byte.
    pub const MESSAGE_TYPE: u8 = 0x58;

    /// The message's size on the wire, after the type byte.
    pub const SIZE: usize = 25;

    /// True when the enumerated fields of the encoded message `s` hold known codes and its
    /// string fields are ASCII.
    pub open spec fn spec_is_vaild(s: Seq<u8>) -> bool {
        &&& PriceType::spec_from_byte(s[0]) is Some
        &&& all_ascii(s.subrange(9, 17))
    }

    /// True when the fields of `self` are those encoded in `s`.
    pub open spec fn decoded_from(self, s: Seq<u8>) -> bool {
        &&& PriceType::spec_from_byte(s[0]) == Some(self.price_type)
        &&& self.timestamp.0@ == i64_le_at(s, 1)
        &&& self.symbol.0@ == s.subrange(9, 17)
        &&& self.official_price.0@ == i64_le_at(s, 17)
    }

    /// True when the encoded message `bytes` can be read as a message of this type.
    pub fn is_vaild(bytes: &[u8; 25]) -> (r: bool)
        ensures
            r == Self::spec_is_vaild(bytes@),
    {
        let b = bytes.as_slice();
        PriceType::is_vaild([bytes[0]]) && Symbol::is_vaild(&copy_field::<8>(b, 9))
    }

    fn decode(bytes: &[u8; 25]) -> (r: Self)
        requires
            Self::spec_is_vaild(bytes@),
        ensures
            r.decoded_from(bytes@),
    {
        let b = bytes.as_slice();
        OfficialPriceMessage {
            price_type: match PriceType::from_byte(b[0]) {
                Some(v) => v,
                None => PriceType::Open,
            },
            timestamp: Timestamp(Little::<i64>::from_native(read_i64_le(b, 1))),
            symbol: Symbol(IexString::<8>::from_field(b, 9)),
            official_price: Price(Little::<i64>::from_native(read_i64_le(b, 17))),
        }
    }

    /// A message is determined by the bytes it is decoded from.
    pub proof fn lemma_decoded_from_unique(a: Self, c: Self, s: Seq<u8>)
        requires
            a.decoded_from(s),
            c.decoded_from(s),
        ensures
            a == c,
    {
        Little::<i64>::lemma_view_injective(a.timestamp.0, c.timestamp.0);
        IexString::<8>::lemma_view_injective(a.symbol.0, c.symbol.0);
        Little::<i64>::lemma_view_injective(a.official_price.0, c.official_price.0);
    }
}

/// Message of type 0x42, 37 bytes on the wire after the type byte.
#[derive(Debug, Clone, Copy, PartialEq, Eq, Hash)]
pub struct TradeBreak {
    pub sale_condition_flags: SaleConditionFlags,
    pub timestamp: Timestamp,
    pub symbol: Symbol,
    pub size: Little<u32>,
    pub price: Price,
    pub trade_id: TradeId,
}

impl TradeBreak {
    /// The message type byte.
    pub const MESSAGE_TYPE: u8 = 0x42;

    /// The message's size on the wire, after the type byte.
    pub const SIZE: usize = 37;

    /// True when the enumerated fields of the encoded message `s` hold known codes and its
    /// string fields are ASCII.
    pub open spec fn spec_is_vaild(s: Seq<u8>) -> bool {
        &&& all_ascii(s.subrange(9, 17))
    }

    /// True when the fields of `self` are those encoded in `s`.
    pub open spec fn decoded_from(self, s: Seq<u8>) -> bool {
        &&& self.sale_condition_flags@ == s[0]
        &&& self.timestamp.0@ == i64_le_at(s, 1)
        &&& self.symbol.0@ == s.subrange(9, 17)
        &&& self.size@ == u32_le_at(s, 17)
        &&& self.price.0@ == i64_le_at(s, 21)
        &&& self.trade_id.0@ == i64_le_at(s, 29)
    }

    /// True when the encoded message `bytes` can be read as a message of this type.
    pub fn is_vaild(bytes: &[u8; 37]) -> (r: bool)
        ensures
            r == Self::spec_is_vaild(bytes@),
    {
        let b = bytes.as_slice();
        Symbol::is_vaild(&copy_field::<8>(b, 9))
    }

    fn decode(bytes: &[u8; 37]) -> (r: Self)
        requires
            Self::spec_is_vaild(bytes@),
        ensures
            r.decoded_from(bytes@),
    {
        let b = bytes.as_slice();
        TradeBreak {
            sale_condition_flags: SaleConditionFlags::from_bits_retain(b[0]),
            timestamp: Timestamp(Little::<i64>::from_native(read_i64_le(b, 1))),
            symbol: Symbol(IexString::<8>::from_field(b, 9)),
            size: Little::<u32>::from_native(read_u32_le(b, 17)),
            price: Price(Little::<i64>::from_native(read_i64_le(b, 21))),
            trade_id: TradeId(Little::<i64>::from_native(read_i64_le(b, 29))),
        }
    }

    /// A message is determined by the bytes it is decoded from.
    pub proof fn lemma_decoded_from_unique(a: Self, c: Self, s: Seq<u8>)
        requires
            a.decoded_from(s),
            c.decoded_from(s),
        ensures
            a == c,
    {
        SaleConditionFlags::lemma_view_injective(a.sale_condition_flags, c.sale_condition_flags);
        Little::<i64>::lemma_view_injective(a.timestamp.0, c.timestamp.0);
        IexString::<8>::lemma_view_injective(a.symbol.0, c.symbol.0);
        Little::<u32>::lemma_view_injective(a.size, c.size);
        Little::<i64>::lemma_view_injective(a.price.0, c.price.0);
        Little::<i64>::lemma_view_injective(a.trade_id.0, c.trade_id.0);
    }
}

/// Field `auction_type` of `AuctionInformation`.
#[derive(Debug, Clone, Copy, PartialEq, Eq, Hash, Structural)]
pub enum AuctionType {
    Opening,
    Closing,
    IPO,
    Halt,
    Volatility,
}

impl AuctionType {
    /// The code of the value on the wire.
    pub open spec fn spec_to_byte(self) -> u8 {
        match self {
            AuctionType::Opening => 0x4f,
            AuctionType::Closing => 0x43,
            AuctionType::IPO => 0x49,
            AuctionType::Halt => 0x48,
            AuctionType::Volatility => 0x56,
        }
    }

    /// The value whose code is `byte`, if any.
    pub open spec fn spec_from_byte(byte: u8) -> Option<Self> {
        if byte == 0x4f {
            Some(AuctionType::Opening)
        } else if byte == 0x43 {
            Some(AuctionType::Closing)
        } else if byte == 0x49 {
            Some(AuctionType::IPO)
        } else if byte == 0x48 {
            Some(AuctionType::Halt)
        } else if byte == 0x56 {
            Some(AuctionType::Volatility)
        } else {
            None
        }
    }

    /// The code of the value on the wire.
    pub fn to_byte(&self) -> (r: u8)
        ensures
            r == self.spec_to_byte(),
            Self::spec_from_byte(r) == Some(*self),
    {
        match self {
            AuctionType::Opening => 0x4f,
            AuctionType::Closing => 0x43,
            AuctionType::IPO => 0x49,
            AuctionType::Halt => 0x48,
            AuctionType::Volatility => 0x56,
        }
    }

    /// True when `byte[0]` is the code of a value.
    pub fn is_vaild(byte: [u8; 1]) -> (r: bool)
        ensures
            r == Self::spec_from_byte(byte@[0]) is Some,
    {
        (AuctionType::Opening.to_byte() == byte[0]) || (AuctionType::Closing.to_byte() == byte[0]) || (AuctionType::IPO.to_byte() == byte[0]) || (AuctionType::Halt.to_byte() == byte[0]) || (AuctionType::Volatility.to_byte() == byte[0]) || false
    }

    fn from_byte(byte: u8) -> (r: Option<Self>)
        ensures
            r == Self::spec_from_byte(byte),
            r matches Some(v) ==> v.spec_to_byte() == byte,
    {
        if byte == 0x4f {
            Some(AuctionType::Opening)
        } else if byte == 0x43 {
            Some(AuctionType::Closing)
        } else if byte == 0x49 {
            Some(AuctionType::IPO)
        } else if byte == 0x48 {
            Some(AuctionType::Halt)
        } else if byte == 0x56 {
            Some(AuctionType::Volatility)
        } else {
            None
        }
    }

    /// The wire codes of `AuctionType`: each value is read from exactly one byte, its code, and
    /// every other byte is rejected.
    pub proof fn law_wire_codes(byte: u8)
        ensures
            (Self::spec_from_byte(byte) == Some(AuctionType::Opening)) <==> byte == 0x4f,
            (Self::spec_from_byte(byte) == Some(AuctionType::Closing)) <==> byte == 0x43,
            (Self::spec_from_byte(byte) == Some(AuctionType::IPO)) <==> byte == 0x49,
            (Self::spec_from_byte(byte) == Some(AuctionType::Halt)) <==> byte == 0x48,
            (Self::spec_from_byte(byte) == Some(AuctionType::Volatility)) <==> byte == 0x56,
            Self::spec_from_byte(byte) is None <==> (byte != 0x4f && byte != 0x43 && byte != 0x49 && byte != 0x48 && byte != 0x56),
            AuctionType::Opening.spec_to_byte() == 0x4f,
            AuctionType::Closing.spec_to_byte() == 0x43,
            AuctionType::IPO.spec_to_byte() == 0x49,
            AuctionType::Halt.spec_to_byte() == 0x48,
            AuctionType::Volatility.spec_to_byte() == 0x56,
    {
    }
}

/// Field `imbalance_side` of `AuctionInformation`.
#[derive(Debug, Clone, Copy, PartialEq, Eq, Hash, Structural)]
pub enum ImbalanceSide {
    Buy,
    Sell,
    Balanced,
}

impl ImbalanceSide {
    /// The code of the value on the wire.
    pub open spec fn spec_to_byte(self) -> u8 {
        match self {
            ImbalanceSide::Buy => 0x42,
            ImbalanceSide::Sell => 0x53,
            ImbalanceSide::Balanced => 0x4e,
        }
    }

    /// The value whose code is `byte`, if any.
    pub open spec fn spec_from_byte(byte: u8) -> Option<Self> {
        if byte == 0x42 {
            Some(ImbalanceSide::Buy)
        } else if byte == 0x53 {
            Some(ImbalanceSide::Sell)
        } else if byte == 0x4e {
            Some(ImbalanceSide::Balanced)
        } else {
            None
        }
    }

    /// The code of the value on the wire.
    pub fn to_byte(&self) -> (r: u8)
        ensures
            r == self.spec_to_byte(),
            Self::spec_from_byte(r) == Some(*self),
    {
        match self {
            ImbalanceSide::Buy => 0x42,
            ImbalanceSide::Sell => 0x53,
            ImbalanceSide::Balanced => 0x4e,
        }
    }

    /// True when `byte[0]` is the code of a value.
    pub fn is_vaild(byte: [u8; 1]) -> (r: bool)
        ensures
            r == Self::spec_from_byte(byte@[0]) is Some,
    {
        (ImbalanceSide::Buy.to_byte() == byte[0]) || (ImbalanceSide::Sell.to_byte() == byte[0]) || (ImbalanceSide::Balanced.to_byte() == byte[0]) || false
    }

    fn from_byte(byte: u8) -> (r: Option<Self>)
        ensures
            r == Self::spec_from_byte(byte),
            r matches Some(v) ==> v.spec_to_byte() == byte,
    {
        if byte == 0x42 {
            Some(ImbalanceSide::Buy)
        } else if byte == 0x53 {
            Some(ImbalanceSide::Sell)
        } else if byte == 0x4e {
            Some(ImbalanceSide::Balanced)
        } else {
            None
        }
    }

    /// The wire codes of `ImbalanceSide`: each value is read from exactly one byte, its code, and
    /// every other byte is rejected.
    pub proof fn law_wire_codes(byte: u8)
        ensures
            (Self::spec_from_byte(byte) == Some(ImbalanceSide::Buy)) <==> byte == 0x42,
            (Self::spec_from_byte(byte) == Some(ImbalanceSide::Sell)) <==> byte == 0x53,
            (Self::spec_from_byte(byte) == Some(ImbalanceSide::Balanced)) <==> byte == 0x4e,
            Self::spec_from_byte(byte) is None <==> (byte != 0x42 && byte != 0x53 && byte != 0x4e),
            ImbalanceSide::Buy.spec_to_byte() == 0x42,
            ImbalanceSide::Sell.spec_to_byte() == 0x53,
            ImbalanceSide::Balanced.spec_to_byte() == 0x4e,
    {
    }
}

/// Message of type 0x41, 79 bytes on the wire after the type byte.
#[derive(Debug, Clone, Copy, PartialEq, Eq, Hash)]
pub struct AuctionInformation {
    pub auction_type: AuctionType,
    pub timestamp: Timestamp,
    pub symbol: Symbol,
    pub paired_shares: Little<u32>,
    pub reference_price: Price,
    pub indicative_clearing_price: Price,
    pub imbalance_shares: Little<u32>,
    pub imbalance_side: ImbalanceSide,
    pub extension_number: Little<u8>,
    pub scheduled_auction_time: EventTime,
    pub auction_book_clearing_price: Price,
    pub collar_reference_price: Price,
    pub lower_auction_collar: Price,
    pub upper_auction_collar: Price,
}

impl AuctionInformation {
    /// The message type byte.
    pub const MESSAGE_TYPE: u8 = 0x41;

    /// The message's size on the wire, after the type byte.
    pub const SIZE: usize = 79;

    /// True when the enumerated fields of the encoded message `s` hold known codes and its
    /// string fields are ASCII.
    pub open spec fn spec_is_vaild(s: Seq<u8>) -> bool {
        &&& AuctionType::spec_from_byte(s[0]) is Some
        &&& all_ascii(s.subrange(9, 17))
        &&& ImbalanceSide::spec_from_byte(s[41]) is Some
    }

    /// True when the fields of `self` are those encoded in `s`.
    pub open spec fn decoded_from(self, s: Seq<u8>) -> bool {
        &&& AuctionType::spec_from_byte(s[0]) == Some(self.auction_type)
        &&& self.timestamp.0@ == i64_le_at(s, 1)
        &&& self.symbol.0@ == s.subrange(9, 17)
        &&& self.paired_shares@ == u32_le_at(s, 17)
        &&& self.reference_price.0@ == i64_le_at(s, 21)
        &&& self.indicative_clearing_price.0@ == i64_le_at(s, 29)
        &&& self.imbalance_shares@ == u32_le_at(s, 37)
        &&& ImbalanceSide::spec_from_byte(s[41]) == Some(self.imbalance_side)
        &&& self.extension_number@ == s[42]
        &&& self.scheduled_auction_time.0@ == u32_le_at(s, 43)
        &&& self.auction_book_clearing_price.0@ == i64_le_at(s, 47)
        &&& self.collar_reference_price.0@ == i64_le_at(s, 55)
        &&& self.lower_auction_collar.0@ == i64_le_at(s, 63)
        &&& self.upper_auction_collar.0@ == i64_le_at(s, 71)
    }

    /// True when the encoded message `bytes` can be read as a message of this type.
    pub fn is_vaild(bytes: &[u8; 79]) -> (r: bool)
        ensures
            r == Self::spec_is_vaild(bytes@),
    {
        let b = bytes.as_slice();
        AuctionType::is_vaild([bytes[0]]) && Symbol::is_vaild(&copy_field::<8>(b, 9)) && ImbalanceSide::is_vaild([bytes[41]])
    }

    fn decode(bytes: &[u8; 79]) -> (r: Self)
        requires
            Self::spec_is_vaild(bytes@),
        ensures
            r.decoded_from(bytes@),
    {
        let b = bytes.as_slice();
        AuctionInformation {
            auction_type: match AuctionType::from_byte(b[0]) {
                Some(v) => v,
                None => AuctionType::Opening,
            },
            timestamp: Timestamp(Little::<i64>::from_native(read_i64_le(b, 1))),
            symbol: Symbol(IexString::<8>::from_field(b, 9)),
            paired_shares: Little::<u32>::from_native(read_u32_le(b, 17)),
            reference_price: Price(Little::<i64>::from_native(read_i64_le(b, 21))),
            indicative_clearing_price: Price(Little::<i64>::from_native(read_i64_le(b, 29))),
            imbalance_shares: Little::<u32>::from_native(read_u32_le(b, 37)),
            imbalance_side: match ImbalanceSide::from_byte(b[41]) {
                Some(v) => v,
                None => ImbalanceSide::Buy,
            },
            extension_number: Little::<u8>::from_native(b[42]),
            scheduled_auction_time: EventTime(Little::<u32>::from_native(read_u32_le(b, 43))),
            auction_book_clearing_price: Price(Little::<i64>::from_native(read_i64_le(b, 47))),
            collar_reference_price: Price(Little::<i64>::from_native(read_i64_le(b, 55))),
            lower_auction_collar: Price(Little::<i64>::from_native(read_i64_le(b, 63))),
            upper_auction_collar: Price(Little::<i64>::from_native(read_i64_le(b, 71))),
        }
    }

    /// A message is determined by the bytes it is decoded from.
    pub proof fn lemma_decoded_from_unique(a: Self, c: Self, s: Seq<u8>)
        requires
            a.decoded_from(s),
            c.decoded_from(s),
        ensures
            a == c,
    {
        Little::<i64>::lemma_view_injective(a.timestamp.0, c.timestamp.0);
        IexString::<8>::lemma_view_injective(a.symbol.0, c.symbol.0);
        Little::<u32>::lemma_view_injective(a.paired_shares, c.paired_shares);
        Little::<i64>::lemma_view_injective(a.reference_price.0, c.reference_price.0);
        Little::<i64>::lemma_view_injective(a.indicative_clearing_price.0, c.indicative_clearing_price.0);
        Little::<u32>::lemma_view_injective(a.imbalance_shares, c.imbalance_shares);
        Little::<u8>::lemma_view_injective(a.extension_number, c.extension_number);
        Little::<u32>::lemma_view_injective(a.scheduled_auction_time.0, c.scheduled_auction_time.0);
        Little::<i64>::lemma_view_injective(a.auction_book_clearing_price.0, c.auction_book_clearing_price.0);
        Little::<i64>::lemma_view_injective(a.collar_reference_price.0, c.collar_reference_price.0);
        Little::<i64>::lemma_view_injective(a.lower_auction_collar.0, c.lower_auction_collar.0);
        Little::<i64>::lemma_view_injective(a.upper_auction_collar.0, c.upper_auction_collar.0);
    }
}

/// The type of a message, given by its first byte.
#[derive(Debug, Clone, Copy, PartialEq, Eq, Hash, Structural)]
pub enum MessageType {
    SystemEvent,
    SecurityDirectory,
    TradingStatus,
    RetailLiquidityIndicator,
    OperationalHaltStatus,
    ShortSalePriceTestStatus,
    QuoteUpdate,
    TradeReportMessage,
    OfficialPriceMessage,
    TradeBreak,
    AuctionInformation,
}

impl MessageType {
    /// The message type byte.
    pub open spec fn spec_to_byte(self) -> u8 {
        match self {
            MessageType::SystemEvent => SystemEvent::MESSAGE_TYPE,
            MessageType::SecurityDirectory => SecurityDirectory::MESSAGE_TYPE,
            MessageType::TradingStatus => TradingStatus::MESSAGE_TYPE,
            MessageType::RetailLiquidityIndicator => RetailLiquidityIndicator::MESSAGE_TYPE,
            MessageType::OperationalHaltStatus => OperationalHaltStatus::MESSAGE_TYPE,
            MessageType::ShortSalePriceTestStatus => ShortSalePriceTestStatus::MESSAGE_TYPE,
            MessageType::QuoteUpdate => QuoteUpdate::MESSAGE_TYPE,
            MessageType::TradeReportMessage => TradeReportMessage::MESSAGE_TYPE,
            MessageType::OfficialPriceMessage => OfficialPriceMessage::MESSAGE_TYPE,
            MessageType::TradeBreak => TradeBreak::MESSAGE_TYPE,
            MessageType::AuctionInformation => AuctionInformation::MESSAGE_TYPE,
        }
    }

    /// The message type whose byte is `byte`, if any.
    pub open spec fn spec_from_byte(byte: u8) -> Option<Self> {
        if byte == SystemEvent::MESSAGE_TYPE {
            Some(MessageType::SystemEvent)
        } else if byte == SecurityDirectory::MESSAGE_TYPE {
            Some(MessageType::SecurityDirectory)
        } else if byte == TradingStatus::MESSAGE_TYPE {
            Some(MessageType::TradingStatus)
        } else if byte == RetailLiquidityIndicator::MESSAGE_TYPE {
            Some(MessageType::RetailLiquidityIndicator)
        } else if byte == OperationalHaltStatus::MESSAGE_TYPE {
            Some(MessageType::OperationalHaltStatus)
        } else if byte == ShortSalePriceTestStatus::MESSAGE_TYPE {
            Some(MessageType::ShortSalePriceTestStatus)
        } else if byte == QuoteUpdate::MESSAGE_TYPE {
            Some(MessageType::QuoteUpdate)
        } else if byte == TradeReportMessage::MESSAGE_TYPE {
            Some(MessageType::TradeReportMessage)
        } else if byte == OfficialPriceMessage::MESSAGE_TYPE {
            Some(MessageType::OfficialPriceMessage)
        } else if byte == TradeBreak::MESSAGE_TYPE {
            Some(MessageType::TradeBreak)
        } else if byte == AuctionInformation::MESSAGE_TYPE {
            Some(MessageType::AuctionInformation)
        } else {
            None
        }
    }

    /// The size on the wire of messages of this type, after the type byte.
    pub open spec fn spec_size(self) -> int {
        match self {
            MessageType::SystemEvent => SystemEvent::SIZE as int,
            MessageType::SecurityDirectory => SecurityDirectory::SIZE as int,
            MessageType::TradingStatus => TradingStatus::SIZE as int,
            MessageType::RetailLiquidityIndicator => RetailLiquidityIndicator::SIZE as int,
            MessageType::OperationalHaltStatus => OperationalHaltStatus::SIZE as int,
            MessageType::ShortSalePriceTestStatus => ShortSalePriceTestStatus::SIZE as int,
            MessageType::QuoteUpdate => QuoteUpdate::SIZE as int,
            MessageType::TradeReportMessage => TradeReportMessage::SIZE as int,
            MessageType::OfficialPriceMessage => OfficialPriceMessage::SIZE as int,
            MessageType::TradeBreak => TradeBreak::SIZE as int,
            MessageType::AuctionInformation => AuctionInformation::SIZE as int,
        }
    }

    /// True when `body` can be read as a message of this type.
    pub open spec fn spec_body_vaild(self, body: Seq<u8>) -> bool {
        match self {
            MessageType::SystemEvent => SystemEvent::spec_is_vaild(body),
            MessageType::SecurityDirectory => SecurityDirectory::spec_is_vaild(body),
            MessageType::TradingStatus => TradingStatus::spec_is_vaild(body),
            MessageType::RetailLiquidityIndicator => RetailLiquidityIndicator::spec_is_vaild(body),
            MessageType::OperationalHaltStatus => OperationalHaltStatus::spec_is_vaild(body),
            MessageType::ShortSalePriceTestStatus => ShortSalePriceTestStatus::spec_is_vaild(body),
            MessageType::QuoteUpdate => QuoteUpdate::spec_is_vaild(body),
            MessageType::TradeReportMessage => TradeReportMessage::spec_is_vaild(body),
            MessageType::OfficialPriceMessage => OfficialPriceMessage::spec_is_vaild(body),
            MessageType::TradeBreak => TradeBreak::spec_is_vaild(body),
            MessageType::AuctionInformation => AuctionInformation::spec_is_vaild(body),
        }
    }

    /// The message type byte.
    pub fn to_byte(&self) -> (r: u8)
        ensures
            r == self.spec_to_byte(),
            Self::spec_from_byte(r) == Some(*self),
    {
        match self {
            MessageType::SystemEvent => SystemEvent::MESSAGE_TYPE,
            MessageType::SecurityDirectory => SecurityDirectory::MESSAGE_TYPE,
            MessageType::TradingStatus => TradingStatus::MESSAGE_TYPE,
            MessageType::RetailLiquidityIndicator => RetailLiquidityIndicator::MESSAGE_TYPE,
            MessageType::OperationalHaltStatus => OperationalHaltStatus::MESSAGE_TYPE,
            MessageType::ShortSalePriceTestStatus => ShortSalePriceTestStatus::MESSAGE_TYPE,
            MessageType::QuoteUpdate => QuoteUpdate::MESSAGE_TYPE,
            MessageType::TradeReportMessage => TradeReportMessage::MESSAGE_TYPE,
            MessageType::OfficialPriceMessage => OfficialPriceMessage::MESSAGE_TYPE,
            MessageType::TradeBreak => TradeBreak::MESSAGE_TYPE,
            MessageType::AuctionInformation => AuctionInformation::MESSAGE_TYPE,
        }
    }

    /// True when `byte[0]` is the byte of a message type.
    pub fn is_vaild(byte: [u8; 1]) -> (r: bool)
        ensures
            r == Self::spec_from_byte(byte@[0]) is Some,
    {
        (MessageType::SystemEvent.to_byte() == byte[0]) || (MessageType::SecurityDirectory.to_byte() == byte[0]) || (MessageType::TradingStatus.to_byte() == byte[0]) || (MessageType::RetailLiquidityIndicator.to_byte() == byte[0]) || (MessageType::OperationalHaltStatus.to_byte() == byte[0]) || (MessageType::ShortSalePriceTestStatus.to_byte() == byte[0]) || (MessageType::QuoteUpdate.to_byte() == byte[0]) || (MessageType::TradeReportMessage.to_byte() == byte[0]) || (MessageType::OfficialPriceMessage.to_byte() == byte[0]) || (MessageType::TradeBreak.to_byte() == byte[0]) || (MessageType::AuctionInformation.to_byte() == byte[0]) || false
    }

    /// The message type whose byte is `byte[0]`, if any.
    pub fn from_byte(byte: [u8; 1]) -> (r: Option<Self>)
        ensures
            r == Self::spec_from_byte(byte@[0]),
            r matches Some(t) ==> t.spec_to_byte() == byte@[0],
    {
        if !Self::is_vaild(byte) {
            return None;
        }
        if byte[0] == SystemEvent::MESSAGE_TYPE {
            Some(MessageType::SystemEvent)
        } else if byte[0] == SecurityDirectory::MESSAGE_TYPE {
            Some(MessageType::SecurityDirectory)
        } else if byte[0] == TradingStatus::MESSAGE_TYPE {
            Some(MessageType::TradingStatus)
        } else if byte[0] == RetailLiquidityIndicator::MESSAGE_TYPE {
            Some(MessageType::RetailLiquidityIndicator)
        } else if byte[0] == OperationalHaltStatus::MESSAGE_TYPE {
            Some(MessageType::OperationalHaltStatus)
        } else if byte[0] == ShortSalePriceTestStatus::MESSAGE_TYPE {
            Some(MessageType::ShortSalePriceTestStatus)
        } else if byte[0] == QuoteUpdate::MESSAGE_TYPE {
            Some(MessageType::QuoteUpdate)
        } else if byte[0] == TradeReportMessage::MESSAGE_TYPE {
            Some(MessageType::TradeReportMessage)
        } else if byte[0] == OfficialPriceMessage::MESSAGE_TYPE {
            Some(MessageType::OfficialPriceMessage)
        } else if byte[0] == TradeBreak::MESSAGE_TYPE {
            Some(MessageType::TradeBreak)
        } else if byte[0] == AuctionInformation::MESSAGE_TYPE {
            Some(MessageType::AuctionInformation)
        } else {
            None
        }
    }

    /// The wire codes of `MessageType`: each value is read from exactly one byte, its code, and
    /// every other byte is rejected.
    pub proof fn law_wire_codes(byte: u8)
        ensures
            (Self::spec_from_byte(byte) == Some(MessageType::SystemEvent)) <==> byte == 0x53,
            (Self::spec_from_byte(byte) == Some(MessageType::SecurityDirectory)) <==> byte == 0x44,
            (Self::spec_from_byte(byte) == Some(MessageType::TradingStatus)) <==> byte == 0x48,
            (Self::spec_from_byte(byte) == Some(MessageType::RetailLiquidityIndicator)) <==> byte == 0x49,
            (Self::spec_from_byte(byte) == Some(MessageType::OperationalHaltStatus)) <==> byte == 0x4f,
            (Self::spec_from_byte(byte) == Some(MessageType::ShortSalePriceTestStatus)) <==> byte == 0x50,
            (Self::spec_from_byte(byte) == Some(MessageType::QuoteUpdate)) <==> byte == 0x51,
            (Self::spec_from_byte(byte) == Some(MessageType::TradeReportMessage)) <==> byte == 0x54,
            (Self::spec_from_byte(byte) == Some(MessageType::OfficialPriceMessage)) <==> byte == 0x58,
            (Self::spec_from_byte(byte) == Some(MessageType::TradeBreak)) <==> byte == 0x42,
            (Self::spec_from_byte(byte) == Some(MessageType::AuctionInformation)) <==> byte == 0x41,
            Self::spec_from_byte(byte) is None <==> (byte != 0x53 && byte != 0x44 && byte != 0x48 && byte != 0x49 && byte != 0x4f && byte != 0x50 && byte != 0x51 && byte != 0x54 && byte != 0x58 && byte != 0x42 && byte != 0x41),
            MessageType::SystemEvent.spec_to_byte() == 0x53,
            MessageType::SecurityDirectory.spec_to_byte() == 0x44,
            MessageType::TradingStatus.spec_to_byte() == 0x48,
            MessageType::RetailLiquidityIndicator.spec_to_byte() == 0x49,
            MessageType::OperationalHaltStatus.spec_to_byte() == 0x4f,
            MessageType::ShortSalePriceTestStatus.spec_to_byte() == 0x50,
            MessageType::QuoteUpdate.spec_to_byte() == 0x51,
            MessageType::TradeReportMessage.spec_to_byte() == 0x54,
            MessageType::OfficialPriceMessage.spec_to_byte() == 0x58,
            MessageType::TradeBreak.spec_to_byte() == 0x42,
            MessageType::AuctionInformation.spec_to_byte() == 0x41,
    {
    }
}

/// A parsed message, owned.
#[derive(Debug, Clone, Copy, PartialEq, Eq, Hash)]
pub enum OwnedMessageEnum {
    SystemEvent(SystemEvent),
    SecurityDirectory(SecurityDirectory),
    TradingStatus(TradingStatus),
    RetailLiquidityIndicator(RetailLiquidityIndicator),
    OperationalHaltStatus(OperationalHaltStatus),
    ShortSalePriceTestStatus(ShortSalePriceTestStatus),
    QuoteUpdate(QuoteUpdate),
    TradeReportMessage(TradeReportMessage),
    OfficialPriceMessage(OfficialPriceMessage),
    TradeBreak(TradeBreak),
    AuctionInformation(AuctionInformation),
}

/// A parsed message.
#[derive(Debug, Clone, Copy, PartialEq, Eq, Hash)]
pub enum MessageEnum {
    SystemEvent(SystemEvent),
    SecurityDirectory(SecurityDirectory),
    TradingStatus(TradingStatus),
    RetailLiquidityIndicator(RetailLiquidityIndicator),
    OperationalHaltStatus(OperationalHaltStatus),
    ShortSalePriceTestStatus(ShortSalePriceTestStatus),
    QuoteUpdate(QuoteUpdate),
    TradeReportMessage(TradeReportMessage),
    OfficialPriceMessage(OfficialPriceMessage),
    TradeBreak(TradeBreak),
    AuctionInformation(AuctionInformation),
}

/// What `parse_packet` makes of `bytes`: the type of the message, or why it fails.
pub open spec fn parse_outcome(bytes: Seq<u8>) -> Result<MessageType, MessageParseError> {
    if bytes.len() == 0 {
        Err(MessageParseError::Invalid)
    } else {
        match MessageType::spec_from_byte(bytes[0]) {
            None => Err(MessageParseError::Unknown),
            Some(t) => if t.spec_size() > bytes.len() - 1 {
                Err(MessageParseError::Invalid)
            } else if !t.spec_body_vaild(bytes.subrange(1, 1 + t.spec_size())) {
                Err(MessageParseError::Invalid)
            } else {
                Ok(t)
            },
        }
    }
}

/// The bytes that a message of the type given by `bytes[0]` is read from: those after the
/// type byte, as many as the type's size.
pub open spec fn message_body(bytes: Seq<u8>) -> Seq<u8> {
    match MessageType::spec_from_byte(bytes[0]) {
        Some(t) => bytes.subrange(1, 1 + t.spec_size()),
        None => Seq::empty(),
    }
}

impl MessageEnum {
    /// The type of the message.
    pub open spec fn message_type(self) -> MessageType {
        match self {
            MessageEnum::SystemEvent(_) => MessageType::SystemEvent,
            MessageEnum::SecurityDirectory(_) => MessageType::SecurityDirectory,
            MessageEnum::TradingStatus(_) => MessageType::TradingStatus,
            MessageEnum::RetailLiquidityIndicator(_) => MessageType::RetailLiquidityIndicator,
            MessageEnum::OperationalHaltStatus(_) => MessageType::OperationalHaltStatus,
            MessageEnum::ShortSalePriceTestStatus(_) => MessageType::ShortSalePriceTestStatus,
            MessageEnum::QuoteUpdate(_) => MessageType::QuoteUpdate,
            MessageEnum::TradeReportMessage(_) => MessageType::TradeReportMessage,
            MessageEnum::OfficialPriceMessage(_) => MessageType::OfficialPriceMessage,
            MessageEnum::TradeBreak(_) => MessageType::TradeBreak,
            MessageEnum::AuctionInformation(_) => MessageType::AuctionInformation,
        }
    }

    /// True when the message's fields are those encoded in `body`.
    pub open spec fn decoded_from(self, body: Seq<u8>) -> bool {
        match self {
            MessageEnum::SystemEvent(m) => m.decoded_from(body),
            MessageEnum::SecurityDirectory(m) => m.decoded_from(body),
            MessageEnum::TradingStatus(m) => m.decoded_from(body),
            MessageEnum::RetailLiquidityIndicator(m) => m.decoded_from(body),
            MessageEnum::OperationalHaltStatus(m) => m.decoded_from(body),
            MessageEnum::ShortSalePriceTestStatus(m) => m.decoded_from(body),
            MessageEnum::QuoteUpdate(m) => m.decoded_from(body),
            MessageEnum::TradeReportMessage(m) => m.decoded_from(body),
            MessageEnum::OfficialPriceMessage(m) => m.decoded_from(body),
            MessageEnum::TradeBreak(m) => m.decoded_from(body),
            MessageEnum::AuctionInformation(m) => m.decoded_from(body),
        }
    }

    /// The message encoded in `bytes`: a type byte followed by the message's fields.
    ///
    /// `Unknown` when the type byte is not a known message type, `Invalid` when `bytes` is
    /// empty, too short for the message or holds an unknown code or a non-ASCII string.
    /// Bytes after the message are ignored.
    pub fn parse_packet(bytes: &[u8]) -> (r: Result<MessageEnum, MessageParseError>)
        ensures
            (match r {
                Ok(m) => parse_outcome(bytes@) == Ok::<MessageType, MessageParseError>(m.message_type())
                    && m.decoded_from(message_body(bytes@)),
                Err(e) => parse_outcome(bytes@) == Err::<MessageType, MessageParseError>(e),
            }),
    {
        if bytes.len() == 0 {
            return Err(MessageParseError::Invalid);
        }
        let message_type = MessageType::from_byte([bytes[0]]);
        let message_type = match message_type {
            None => {
                return Err(MessageParseError::Unknown);
            },
            Some(message_type) => message_type,
        };
        let success = match message_type {
            MessageType::SystemEvent => {
                if SystemEvent::SIZE > bytes.len() - 1 {
                    return Err(MessageParseError::Invalid);
                }
                let exact_sized = copy_field::<9>(bytes, 1);
                if !SystemEvent::is_vaild(&exact_sized) {
                    return Err(MessageParseError::Invalid);
                }
                MessageEnum::SystemEvent(SystemEvent::decode(&exact_sized))
            },
            MessageType::SecurityDirectory => {
                if SecurityDirectory::SIZE > bytes.len() - 1 {
                    return Err(MessageParseError::Invalid);
                }
                let exact_sized = copy_field::<30>(bytes, 1);
                if !SecurityDirectory::is_vaild(&exact_sized) {
                    return Err(MessageParseError::Invalid);
                }
                MessageEnum::SecurityDirectory(SecurityDirectory::decode(&exact_sized))
            },
            MessageType::TradingStatus => {
                if TradingStatus::SIZE > bytes.len() - 1 {
                    return Err(MessageParseError::Invalid);
                }
                let exact_sized = copy_field::<21>(bytes, 1);
                if !TradingStatus::is_vaild(&exact_sized) {
                    return Err(MessageParseError::Invalid);
                }
                MessageEnum::TradingStatus(TradingStatus::decode(&exact_sized))
            },
            MessageType::RetailLiquidityIndicator => {
                if RetailLiquidityIndicator::SIZE > bytes.len() - 1 {
                    return Err(MessageParseError::Invalid);
                }
                let exact_sized = copy_field::<17>(bytes, 1);
                if !RetailLiquidityIndicator::is_vaild(&exact_sized) {
                    return Err(MessageParseError::Invalid);
                }
                MessageEnum::RetailLiquidityIndicator(RetailLiquidityIndicator::decode(&exact_sized))
            },
            MessageType::OperationalHaltStatus => {
                if OperationalHaltStatus::SIZE > bytes.len() - 1 {
                    return Err(MessageParseError::Invalid);
                }
                let exact_sized = copy_field::<17>(bytes, 1);
                if !OperationalHaltStatus::is_vaild(&exact_sized) {
                    return Err(MessageParseError::Invalid);
                }
                MessageEnum::OperationalHaltStatus(OperationalHaltStatus::decode(&exact_sized))
            },
            MessageType::ShortSalePriceTestStatus => {
                if ShortSalePriceTestStatus::SIZE > bytes.len() - 1 {
                    return Err(MessageParseError::Invalid);
                }
                let exact_sized = copy_field::<18>(bytes, 1);
                if !ShortSalePriceTestStatus::is_vaild(&exact_sized) {
                    return Err(MessageParseError::Invalid);
                }
                MessageEnum::ShortSalePriceTestStatus(ShortSalePriceTestStatus::decode(&exact_sized))
            },
            MessageType::QuoteUpdate => {
                if QuoteUpdate::SIZE > bytes.len() - 1 {
                    return Err(MessageParseError::Invalid);
                }
                let exact_sized = copy_field::<41>(bytes, 1);
                if !QuoteUpdate::is_vaild(&exact_sized) {
                    return Err(MessageParseError::Invalid);
                }
                MessageEnum::QuoteUpdate(QuoteUpdate::decode(&exact_sized))
            },
            MessageType::TradeReportMessage => {
                if TradeReportMessage::SIZE > bytes.len() - 1 {
                    return Err(MessageParseError::Invalid);
                }
                let exact_sized = copy_field::<37>(bytes, 1);
                if !TradeReportMessage::is_vaild(&exact_sized) {
                    return Err(MessageParseError::Invalid);
                }
                MessageEnum::TradeReportMessage(TradeReportMessage::decode(&exact_sized))
            },
            MessageType::OfficialPriceMessage => {
                if OfficialPriceMessage::SIZE > bytes.len() - 1 {
                    return Err(MessageParseError::Invalid);
                }
                let exact_sized = copy_field::<25>(bytes, 1);
                if !OfficialPriceMessage::is_vaild(&exact_sized) {
                    return Err(MessageParseError::Invalid);
                }
                MessageEnum::OfficialPriceMessage(OfficialPriceMessage::decode(&exact_sized))
            },
            MessageType::TradeBreak => {
                if TradeBreak::SIZE > bytes.len() - 1 {
                    return Err(MessageParseError::Invalid);
                }
                let exact_sized = copy_field::<37>(bytes, 1);
                if !TradeBreak::is_vaild(&exact_sized) {
                    return Err(MessageParseError::Invalid);
                }
                MessageEnum::TradeBreak(TradeBreak::decode(&exact_sized))
            },
            MessageType::AuctionInformation => {
                if AuctionInformation::SIZE > bytes.len() - 1 {
                    return Err(MessageParseError::Invalid);
                }
                let exact_sized = copy_field::<79>(bytes, 1);
                if !AuctionInformation::is_vaild(&exact_sized) {
                    return Err(MessageParseError::Invalid);
                }
                MessageEnum::AuctionInformation(AuctionInformation::decode(&exact_sized))
            },
        };
        Ok(success)
    }

    /// The message held by `owned`.
    pub open spec fn spec_from_owned(owned: OwnedMessageEnum) -> Self {
        match owned {
            OwnedMessageEnum::SystemEvent(inner) => MessageEnum::SystemEvent(inner),
            OwnedMessageEnum::SecurityDirectory(inner) => MessageEnum::SecurityDirectory(inner),
            OwnedMessageEnum::TradingStatus(inner) => MessageEnum::TradingStatus(inner),
            OwnedMessageEnum::RetailLiquidityIndicator(inner) => MessageEnum::RetailLiquidityIndicator(inner),
            OwnedMessageEnum::OperationalHaltStatus(inner) => MessageEnum::OperationalHaltStatus(inner),
            OwnedMessageEnum::ShortSalePriceTestStatus(inner) => MessageEnum::ShortSalePriceTestStatus(inner),
            OwnedMessageEnum::QuoteUpdate(inner) => MessageEnum::QuoteUpdate(inner),
            OwnedMessageEnum::TradeReportMessage(inner) => MessageEnum::TradeReportMessage(inner),
            OwnedMessageEnum::OfficialPriceMessage(inner) => MessageEnum::OfficialPriceMessage(inner),
            OwnedMessageEnum::TradeBreak(inner) => MessageEnum::TradeBreak(inner),
            OwnedMessageEnum::AuctionInformation(inner) => MessageEnum::AuctionInformation(inner),
        }
    }

    /// The message held by `owned`.
    pub fn from_owned(owned: &OwnedMessageEnum) -> (r: Self)
        ensures
            r == Self::spec_from_owned(*owned),
    {
        match owned {
            OwnedMessageEnum::SystemEvent(inner) => MessageEnum::SystemEvent(*inner),
            OwnedMessageEnum::SecurityDirectory(inner) => MessageEnum::SecurityDirectory(*inner),
            OwnedMessageEnum::TradingStatus(inner) => MessageEnum::TradingStatus(*inner),
            OwnedMessageEnum::RetailLiquidityIndicator(inner) => MessageEnum::RetailLiquidityIndicator(*inner),
            OwnedMessageEnum::OperationalHaltStatus(inner) => MessageEnum::OperationalHaltStatus(*inner),
            OwnedMessageEnum::ShortSalePriceTestStatus(inner) => MessageEnum::ShortSalePriceTestStatus(*inner),
            OwnedMessageEnum::QuoteUpdate(inner) => MessageEnum::QuoteUpdate(*inner),
            OwnedMessageEnum::TradeReportMessage(inner) => MessageEnum::TradeReportMessage(*inner),
            OwnedMessageEnum::OfficialPriceMessage(inner) => MessageEnum::OfficialPriceMessage(*inner),
            OwnedMessageEnum::TradeBreak(inner) => MessageEnum::TradeBreak(*inner),
            OwnedMessageEnum::AuctionInformation(inner) => MessageEnum::AuctionInformation(*inner),
        }
    }
}

impl OwnedMessageEnum {
    /// An owned copy of the message `reference`.
    pub open spec fn spec_from_ref(reference: MessageEnum) -> Self {
        match reference {
            MessageEnum::SystemEvent(inner) => OwnedMessageEnum::SystemEvent(inner),
            MessageEnum::SecurityDirectory(inner) => OwnedMessageEnum::SecurityDirectory(inner),
            MessageEnum::TradingStatus(inner) => OwnedMessageEnum::TradingStatus(inner),
            MessageEnum::RetailLiquidityIndicator(inner) => OwnedMessageEnum::RetailLiquidityIndicator(inner),
            MessageEnum::OperationalHaltStatus(inner) => OwnedMessageEnum::OperationalHaltStatus(inner),
            MessageEnum::ShortSalePriceTestStatus(inner) => OwnedMessageEnum::ShortSalePriceTestStatus(inner),
            MessageEnum::QuoteUpdate(inner) => OwnedMessageEnum::QuoteUpdate(inner),
            MessageEnum::TradeReportMessage(inner) => OwnedMessageEnum::TradeReportMessage(inner),
            MessageEnum::OfficialPriceMessage(inner) => OwnedMessageEnum::OfficialPriceMessage(inner),
            MessageEnum::TradeBreak(inner) => OwnedMessageEnum::TradeBreak(inner),
            MessageEnum::AuctionInformation(inner) => OwnedMessageEnum::AuctionInformation(inner),
        }
    }

    /// An owned copy of the message `reference`.
    pub fn from_ref(reference: MessageEnum) -> (r: Self)
        ensures
            r == Self::spec_from_ref(reference),
    {
        match reference {
            MessageEnum::SystemEvent(inner) => OwnedMessageEnum::SystemEvent(inner),
            MessageEnum::SecurityDirectory(inner) => OwnedMessageEnum::SecurityDirectory(inner),
            MessageEnum::TradingStatus(inner) => OwnedMessageEnum::TradingStatus(inner),
            MessageEnum::RetailLiquidityIndicator(inner) => OwnedMessageEnum::RetailLiquidityIndicator(inner),
            MessageEnum::OperationalHaltStatus(inner) => OwnedMessageEnum::OperationalHaltStatus(inner),
            MessageEnum::ShortSalePriceTestStatus(inner) => OwnedMessageEnum::ShortSalePriceTestStatus(inner),
            MessageEnum::QuoteUpdate(inner) => OwnedMessageEnum::QuoteUpdate(inner),
            MessageEnum::TradeReportMessage(inner) => OwnedMessageEnum::TradeReportMessage(inner),
            MessageEnum::OfficialPriceMessage(inner) => OwnedMessageEnum::OfficialPriceMessage(inner),
            MessageEnum::TradeBreak(inner) => OwnedMessageEnum::TradeBreak(inner),
            MessageEnum::AuctionInformation(inner) => OwnedMessageEnum::AuctionInformation(inner),
        }
    }
}

/// A successfully parsed message is determined by its type and body.
pub proof fn lemma_message_decoded_from_unique(a: MessageEnum, c: MessageEnum, body: Seq<u8>)
    requires
        a.message_type() == c.message_type(),
        a.decoded_from(body),
        c.decoded_from(body),
    ensures
        a == c,
{
    match (a, c) {
        (MessageEnum::SystemEvent(x), MessageEnum::SystemEvent(y)) => SystemEvent::lemma_decoded_from_unique(x, y, body),
        (MessageEnum::SecurityDirectory(x), MessageEnum::SecurityDirectory(y)) => SecurityDirectory::lemma_decoded_from_unique(x, y, body),
        (MessageEnum::TradingStatus(x), MessageEnum::TradingStatus(y)) => TradingStatus::lemma_decoded_from_unique(x, y, body),
        (MessageEnum::RetailLiquidityIndicator(x), MessageEnum::RetailLiquidityIndicator(y)) => RetailLiquidityIndicator::lemma_decoded_from_unique(x, y, body),
        (MessageEnum::OperationalHaltStatus(x), MessageEnum::OperationalHaltStatus(y)) => OperationalHaltStatus::lemma_decoded_from_unique(x, y, body),
        (MessageEnum::ShortSalePriceTestStatus(x), MessageEnum::ShortSalePriceTestStatus(y)) => ShortSalePriceTestStatus::lemma_decoded_from_unique(x, y, body),
        (MessageEnum::QuoteUpdate(x), MessageEnum::QuoteUpdate(y)) => QuoteUpdate::lemma_decoded_from_unique(x, y, body),
        (MessageEnum::TradeReportMessage(x), MessageEnum::TradeReportMessage(y)) => TradeReportMessage::lemma_decoded_from_unique(x, y, body),
        (MessageEnum::OfficialPriceMessage(x), MessageEnum::OfficialPriceMessage(y)) => OfficialPriceMessage::lemma_decoded_from_unique(x, y, body),
        (MessageEnum::TradeBreak(x), MessageEnum::TradeBreak(y)) => TradeBreak::lemma_decoded_from_unique(x, y, body),
        (MessageEnum::AuctionInformation(x), MessageEnum::AuctionInformation(y)) => AuctionInformation::lemma_decoded_from_unique(x, y, body),
        _ => {},
    }
}

/// Bytes after a message are ignored: once `bytes` holds a whole message (or its type byte
/// is not a known type), appending bytes to it changes neither the outcome of parsing nor the
/// bytes the message is read from. This is what lets this parser read messages that later
/// protocol versions extend with new fields at their end.
pub proof fn law_trailing_bytes_ignored(bytes: Seq<u8>, extra: Seq<u8>)
    requires
        bytes.len() > 0,
        MessageType::spec_from_byte(bytes[0]) matches Some(t) ==> t.spec_size() <= bytes.len() - 1,
    ensures
        parse_outcome(bytes + extra) == parse_outcome(bytes),
        message_body(bytes + extra) == message_body(bytes),
{
    let all = bytes + extra;
    assert(all[0] == bytes[0]);
    if let Some(t) = MessageType::spec_from_byte(bytes[0]) {
        assert(all.subrange(1, 1 + t.spec_size()) =~= bytes.subrange(1, 1 + t.spec_size()));
    }
}

/// A message's type is the one named by its variant.
pub proof fn law_message_type_of_variant(m: MessageEnum)
    ensures
        (m.message_type() == MessageType::SystemEvent) <==> m is SystemEvent,
        (m.message_type() == MessageType::SecurityDirectory) <==> m is SecurityDirectory,
        (m.message_type() == MessageType::TradingStatus) <==> m is TradingStatus,
        (m.message_type() == MessageType::RetailLiquidityIndicator) <==> m is RetailLiquidityIndicator,
        (m.message_type() == MessageType::OperationalHaltStatus) <==> m is OperationalHaltStatus,
        (m.message_type() == MessageType::ShortSalePriceTestStatus) <==> m is ShortSalePriceTestStatus,
        (m.message_type() == MessageType::QuoteUpdate) <==> m is QuoteUpdate,
        (m.message_type() == MessageType::TradeReportMessage) <==> m is TradeReportMessage,
        (m.message_type() == MessageType::OfficialPriceMessage) <==> m is OfficialPriceMessage,
        (m.message_type() == MessageType::TradeBreak) <==> m is TradeBreak,
        (m.message_type() == MessageType::AuctionInformation) <==> m is AuctionInformation,
{
}

/// A message type byte is read back as the same message type.
pub proof fn law_message_type_byte_roundtrip(t: MessageType)
    ensures
        MessageType::spec_from_byte(t.spec_to_byte()) == Some(t),
{
}

/// Copying a message into an owned one and back gives the same message, and so does the
/// other way round.
pub proof fn law_owned_roundtrip(owned: OwnedMessageEnum, reference: MessageEnum)
    ensures
        OwnedMessageEnum::spec_from_ref(MessageEnum::spec_from_owned(owned)) == owned,
        MessageEnum::spec_from_owned(OwnedMessageEnum::spec_from_ref(reference)) == reference,
{
}

} // verus!
