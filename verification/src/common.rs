use vstd::prelude::*;
use vstd::utf8::*;
use vstd::string::*;
use core::time::Duration;
use vstd::std_specs::ops::{AddSpec, SubSpec};
use crate::endian::Little;
use crate::wire::copy_field;

verus! {

/// True when every byte of `s` is a 7-bit ASCII code.
pub open spec fn all_ascii(s: Seq<u8>) -> bool {
    forall|i: int| 0 <= i < s.len() ==> #[trigger] s[i] <= 127
}

/// True when `s` holds no space character (0x20).
pub open spec fn space_free(s: Seq<u8>) -> bool {
    forall|i: int| 0 <= i < s.len() ==> #[trigger] s[i] != 0x20u8
}

/// `bytes` followed by spaces up to a total length of `max`.
pub open spec fn space_padded(bytes: Seq<u8>, max: nat) -> Seq<u8> {
    bytes + Seq::new((max - bytes.len()) as nat, |i: int| 0x20u8)
}

/// The text of a space terminated field: the bytes before the first space, or all of them.
pub open spec fn is_text_of(field: Seq<u8>, text: Seq<u8>) -> bool {
    &&& text.len() <= field.len()
    &&& text == field.take(text.len() as int)
    &&& space_free(text)
    &&& text.len() < field.len() ==> field[text.len() as int] == 0x20u8
}

/// `core::str::from_utf8`: succeeds exactly on valid UTF-8 input, and the string slice it
/// returns has the given bytes as its UTF-8 encoding.
#[verifier::external_body]
fn str_from_utf8(bytes: &[u8]) -> (r: Option<&str>)
    ensures
        r is Some <==> valid_utf8(bytes@),
        r matches Some(s) ==> s.spec_bytes() == bytes@,
{
    core::str::from_utf8(bytes).ok()
}

/// ASCII bytes form valid UTF-8.
proof fn lemma_ascii_valid_utf8(s: Seq<u8>)
    requires
        all_ascii(s),
    ensures
        valid_utf8(s),
{
    assert(s.subrange(0, 0) =~= Seq::<u8>::empty());
    assert(partial_valid_utf8(s, 0));
    assert forall|i: int| 0 <= i < s.len() implies #[trigger] is_leading_byte_width_1(s[i]) by {}
    partial_valid_utf8_extend_ascii_block(s, 0, s.len() as int);
    assert(s.subrange(0, s.len() as int) =~= s);
}

/// Space terminated ASCII string stored in a fixed field of `MAX` bytes.
#[derive(Debug, Clone, Copy, PartialEq, Eq, Hash)]
pub struct IexString<const MAX: usize>([u8; MAX]);

impl<const MAX: usize> View for IexString<MAX> {
    type V = Seq<u8>;

    closed spec fn view(&self) -> Seq<u8> {
        self.0@
    }
}

impl<const MAX: usize> IexString<MAX> {
    #[verifier::type_invariant]
    spec fn well_formed(self) -> bool {
        all_ascii(self.0@)
    }

    /// The field's bytes, including the padding.
    pub fn as_bytes(&self) -> (r: [u8; MAX])
        ensures
            r@ == self@,
            r@.len() == MAX,
            all_ascii(r@),
    {
        proof { use_type_invariant(self); }
        self.0
    }

    /// Pads `bytes` with spaces to `MAX` bytes; `None` when it is too long or not ASCII.
    pub fn from_bytes(bytes: &[u8]) -> (r: Option<Self>)
        ensures
            r is Some <==> bytes@.len() <= MAX && all_ascii(bytes@),
            r matches Some(s) ==> s@ == space_padded(bytes@, MAX as nat),
    {
        if bytes.len() > MAX {
            return None;
        }
        let mut out: [u8; MAX] = [0x20u8; MAX];
        let mut counter: usize = 0;
        while counter < bytes.len()
            invariant
                bytes.len() <= MAX,
                counter <= bytes.len(),
                out@.len() == MAX,
                all_ascii(bytes@.take(counter as int)),
                forall|i: int| 0 <= i < counter ==> out@[i] == bytes@[i],
                forall|i: int| counter <= i < MAX ==> out@[i] == 0x20u8,
            decreases bytes.len() - counter,
        {
            let byte = bytes[counter];
            if byte > 127 {
                return None;
            }
            out[counter] = byte;
            counter += 1;
            assert(bytes@.take(counter as int) =~= bytes@.take(counter - 1).push(byte));
        }
        assert(bytes@.take(counter as int) =~= bytes@);
        assert(out@ =~= space_padded(bytes@, MAX as nat));
        Some(IexString(out))
    }

    /// True when every byte of the field is ASCII.
    pub fn is_vaild(bytes: &[u8; MAX]) -> (r: bool)
        ensures
            r == all_ascii(bytes@),
    {
        let mut counter: usize = 0;
        while counter < MAX
            invariant
                counter <= MAX,
                bytes@.len() == MAX,
                forall|i: int| 0 <= i < counter ==> bytes@[i] <= 127,
            decreases MAX - counter,
        {
            if bytes[counter] > 127 {
                return false;
            }
            counter += 1;
        }
        true
    }

    /// The text before the first space.
    pub fn as_str(&self) -> (r: &str)
        ensures
            is_text_of(self@, r.spec_bytes()),
    {
        proof { use_type_invariant(self); }
        let mut counter: usize = 0;
        while counter < MAX && self.0[counter] != 0x20u8
            invariant
                counter <= MAX,
                self.0@.len() == MAX,
                space_free(self.0@.take(counter as int)),
            decreases MAX - counter,
        {
            counter += 1;
            assert(self.0@.take(counter as int) =~= self.0@.take(counter - 1).push(self.0@[counter - 1]));
        }
        let all = self.0.as_slice();
        let text = vstd::slice::slice_subrange(all, 0, counter);
        assert(text@ =~= self.0@.take(counter as int));
        proof { lemma_ascii_valid_utf8(text@); }
        match str_from_utf8(text) {
            Some(s) => s,
            None => "",
        }
    }

    /// The text before the first space as an owned `String`; this is the text that the
    /// string's debug output shows.
    pub fn to_text_string(&self) -> (r: String)
        ensures
            is_text_of(self@, encode_utf8(r@)),
    {
        self.as_str().to_owned()
    }

    /// `from_bytes` applied to the UTF-8 encoding of `symbol`.
    pub fn from_str(symbol: &str) -> (r: Option<Self>)
        ensures
            r is Some <==> symbol.spec_bytes().len() <= MAX && all_ascii(symbol.spec_bytes()),
            r matches Some(s) ==> s@ == space_padded(symbol.spec_bytes(), MAX as nat),
    {
        Self::from_bytes(symbol.as_bytes())
    }

    /// The field of `MAX` bytes of `bytes` at `off`, which must be ASCII.
    pub(crate) fn from_field(bytes: &[u8], off: usize) -> (r: Self)
        requires
            off + MAX <= bytes.len(),
            all_ascii(bytes@.subrange(off as int, off + MAX)),
        ensures
            r@ == bytes@.subrange(off as int, off + MAX),
    {
        IexString(copy_field::<MAX>(bytes, off))
    }

    /// Two strings with the same bytes are equal.
    pub proof fn lemma_view_injective(a: Self, b: Self)
        ensures
            a@ == b@ ==> a == b,
    {
        if a@ == b@ {
            assert(a.0 =~= b.0);
        }
    }
}

/// Security ticker symbol: a space terminated ASCII string of 8 bytes.
#[derive(Debug, Clone, Copy, PartialEq, Eq, Hash)]
pub struct Symbol(pub IexString<8>);

impl Symbol {
    /// The symbol's text, before the first space.
    pub fn as_str(&self) -> (r: &str)
        ensures
            is_text_of(self.0@, r.spec_bytes()),
    {
        self.0.as_str()
    }

    /// The symbol with the text `symbol`; `None` when it is longer than 8 bytes or not ASCII.
    pub fn from_str(symbol: &str) -> (r: Option<Self>)
        ensures
            r is Some <==> symbol.spec_bytes().len() <= 8 && all_ascii(symbol.spec_bytes()),
            r matches Some(s) ==> s.0@ == space_padded(symbol.spec_bytes(), 8),
    {
        match IexString::from_str(symbol) {
            None => None,
            Some(symbol) => Some(Self(symbol)),
        }
    }

    /// True when the 8 bytes form a valid symbol (all ASCII).
    pub fn is_vaild(bytes: &[u8; 8]) -> (r: bool)
        ensures
            r == all_ascii(bytes@),
    {
        IexString::<8>::is_vaild(bytes)
    }
}

/// Reason code: a space terminated ASCII string of 4 bytes.
#[derive(Debug, Clone, Copy, PartialEq, Eq, Hash)]
pub struct Reason(pub IexString<4>);

impl Reason {
    /// The reason's text, before the first space.
    pub fn as_str(&self) -> (r: &str)
        ensures
            is_text_of(self.0@, r.spec_bytes()),
    {
        self.0.as_str()
    }

    /// True when the 4 bytes form a valid reason (all ASCII).
    pub fn is_vaild(bytes: &[u8; 4]) -> (r: bool)
        ensures
            r == all_ascii(bytes@),
    {
        IexString::<4>::is_vaild(bytes)
    }
}

/// Trade identifier.
#[derive(Debug, Clone, Copy, PartialEq, Eq, Hash)]
pub struct TradeId(pub Little<i64>);

/// Order identifier.
#[derive(Debug, Clone, Copy, PartialEq, Eq, Hash)]
pub struct OrderId(pub Little<i64>);

/// Monotonic nanoseconds since the UTC epoch.
#[derive(Debug, Clone, Copy, PartialEq, Eq, Hash)]
pub struct Timestamp(pub Little<i64>);

/// The duration that `Duration::from_nanos` builds from `nanos`.
pub uninterp spec fn duration_of_nanos(nanos: u64) -> Duration;

/// The duration that `Duration::new` builds from `secs` and `nanos`.
pub uninterp spec fn duration_of_secs_nanos(secs: u64, nanos: u32) -> Duration;

/// Calls `Duration::from_nanos`, which never fails; its result is named `duration_of_nanos`.
#[verifier::external_body]
fn duration_from_nanos(nanos: u64) -> (d: Duration)
    ensures
        d == duration_of_nanos(nanos),
{
    Duration::from_nanos(nanos)
}

/// Calls `Duration::new`, which panics only when the nanoseconds carry past the seconds
/// counter, excluded here; its result is named `duration_of_secs_nanos`.
#[verifier::external_body]
fn duration_new(secs: u64, nanos: u32) -> (d: Duration)
    requires
        nanos < 1_000_000_000,
    ensures
        d == duration_of_secs_nanos(secs, nanos),
{
    Duration::new(secs, nanos)
}

/// Duration since the UTC epoch; an error for a timestamp before the epoch.
impl core::convert::TryFrom<Timestamp> for Duration {
    type Error = core::num::TryFromIntError;

    fn try_from(value: Timestamp) -> (r: Result<Self, Self::Error>) {
        match u64::try_from(value.0.to_native()) {
            Ok(unsigned_nanos) => Ok(duration_from_nanos(unsigned_nanos)),
            Err(e) => Err(e),
        }
    }
}

impl vstd::std_specs::convert::TryFromSpecImpl<Timestamp> for Duration {
    open spec fn obeys_try_from_spec() -> bool {
        true
    }

    open spec fn try_from_spec(value: Timestamp) -> Result<Self, Self::Error> {
        if value.0@ >= 0 {
            Ok(duration_of_nanos(value.0@ as u64))
        } else {
            Err(arbitrary())
        }
    }
}

/// Price in units of 0.0001 of the currency.
#[derive(Debug, Clone, Copy, PartialEq, Eq, Hash)]
pub struct Price(pub Little<i64>);

impl core::ops::Add for Price {
    type Output = Self;

    fn add(self, rhs: Self) -> (r: Self::Output) {
        Self(Little::<i64>::from_native(self.0.to_native() + rhs.0.to_native()))
    }
}

impl vstd::std_specs::ops::AddSpecImpl for Price {
    open spec fn obeys_add_spec() -> bool {
        true
    }

    /// The sum must fit in an `i64`; outside that range the addition overflows.
    open spec fn add_req(self, rhs: Self) -> bool {
        i64::MIN <= self.0@ + rhs.0@ <= i64::MAX
    }

    open spec fn add_spec(self, rhs: Self) -> Self {
        Price(Little::<i64>::spec_from_native((self.0@ + rhs.0@) as i64))
    }
}

impl core::ops::Sub for Price {
    type Output = Self;

    fn sub(self, rhs: Self) -> (r: Self::Output) {
        Self(Little::<i64>::from_native(self.0.to_native() - rhs.0.to_native()))
    }
}

impl vstd::std_specs::ops::SubSpecImpl for Price {
    open spec fn obeys_sub_spec() -> bool {
        true
    }

    /// The difference must fit in an `i64`; outside that range the subtraction overflows.
    open spec fn sub_req(self, rhs: Self) -> bool {
        i64::MIN <= self.0@ - rhs.0@ <= i64::MAX
    }

    open spec fn sub_spec(self, rhs: Self) -> Self {
        Price(Little::<i64>::spec_from_native((self.0@ - rhs.0@) as i64))
    }
}

/// Seconds since the UTC epoch.
#[derive(Debug, Clone, Copy, PartialEq, Eq, Hash)]
pub struct EventTime(pub Little<u32>);

/// Duration since the UTC epoch.
impl core::convert::From<EventTime> for Duration {
    fn from(value: EventTime) -> (r: Self) {
        duration_new(value.0.to_native() as u64, 0)
    }
}

impl vstd::std_specs::convert::FromSpecImpl<EventTime> for Duration {
    open spec fn obeys_from_spec() -> bool {
        true
    }

    open spec fn from_spec(value: EventTime) -> Self {
        duration_of_secs_nanos(value.0@ as u64, 0)
    }
}

/// A space-free text of at most `max` bytes, padded to `max` bytes with spaces, reads back as
/// the same text: `IexString::from_str(s).as_str()` gives `s` back.
pub proof fn law_padded_text_roundtrip(text: Seq<u8>, max: nat)
    requires
        text.len() <= max,
        space_free(text),
    ensures
        is_text_of(space_padded(text, max), text),
{
    assert(space_padded(text, max).take(text.len() as int) =~= text);
}

/// A field has one text: the bytes before its first space.
pub proof fn law_text_unique(field: Seq<u8>, t1: Seq<u8>, t2: Seq<u8>)
    requires
        is_text_of(field, t1),
        is_text_of(field, t2),
    ensures
        t1 == t2,
{
    if t1.len() < t2.len() {
        assert(t2[t1.len() as int] == field[t1.len() as int]);
    } else if t2.len() < t1.len() {
        assert(t1[t2.len() as int] == field[t2.len() as int]);
    }
    assert(t1 =~= t2);
}

/// Padding bytes that already fill the field changes nothing, so
/// `IexString::from_bytes(&s.as_bytes())` gives `s` back.
pub proof fn law_full_field_unpadded(bytes: Seq<u8>, max: nat)
    requires
        bytes.len() == max,
    ensures
        space_padded(bytes, max) == bytes,
{
    assert(space_padded(bytes, max) =~= bytes);
}

/// Adding a price and then subtracting it again gives the first price back, when neither
/// step overflows.
pub proof fn law_price_add_sub(a: Price, b: Price)
    requires
        i64::MIN <= a.0@ + b.0@ <= i64::MAX,
    ensures
        a.add_req(b),
        a.add_spec(b).sub_req(b),
        a.add_spec(b).sub_spec(b) == a,
{
    broadcast use Little::lemma_spec_from_native;
    Little::<i64>::lemma_view_injective(a.add_spec(b).sub_spec(b).0, a.0);
}

/// Why a message could not be parsed.
#[derive(Debug, Clone, Copy, PartialEq, Eq, Hash, Structural)]
pub enum MessageParseError {
    /// The message type is unknown.
    /// Most likely a forward compatibility error where a new protocol version introduces a new packet type.
    Unknown,
    /// Currently means the packet is malformed,
    /// in the future it might indicate backward incompatibility.
    /// The current version of the parser is backwards compatable with all prevous version of DEEP, DEEP+ and TOPS.
    /// Howover IEX says they may add new fields in the future which would necessitate a backward compatibility break (forward compatibility would remain intact).
    Invalid,
}

} // verus!
