//! Wrappers that hold an integer read from or written to the wire in a fixed byte order.
use vstd::endian::{endianness, Endian};
use vstd::prelude::*;

verus! {

/// Integer carried in little-endian byte order.
///
/// The wrapper holds the integer's value; `to_raw` and `from_raw` give and take the
/// in-memory representation of the little-endian encoding on the executing machine.
#[derive(Debug, Clone, Copy, PartialEq, Eq, Hash)]
pub struct Little<T>(pub(crate) T);

/// Integer carried in big-endian byte order.
///
/// The wrapper holds the integer's value; `to_raw` and `from_raw` give and take the
/// in-memory representation of the big-endian encoding on the executing machine.
#[derive(Debug, Clone, Copy, PartialEq, Eq, Hash)]
pub struct Big<T>(pub(crate) T);

impl<T> View for Little<T> {
    type V = T;

    /// The integer's value.
    closed spec fn view(&self) -> T {
        self.0
    }
}

impl<T> Little<T> {
    /// The wrapper holding the value `v`.
    pub closed spec fn spec_from_native(v: T) -> Self {
        Little(v)
    }

    /// `spec_from_native` holds the value it was given, and a wrapper is determined by its value.
    pub broadcast proof fn lemma_spec_from_native(v: T)
        ensures
            (#[trigger] Self::spec_from_native(v))@ == v,
    {
    }

    /// Two wrappers holding the same value are equal.
    pub proof fn lemma_view_injective(a: Self, b: Self)
        ensures
            a@ == b@ ==> a == b,
    {
    }
}

impl<T> Big<T> {
    /// The wrapper holding the value `v`.
    pub closed spec fn spec_from_native(v: T) -> Self {
        Big(v)
    }

    /// `spec_from_native` holds the value it was given.
    pub broadcast proof fn lemma_spec_from_native(v: T)
        ensures
            (#[trigger] Self::spec_from_native(v))@ == v,
    {
    }

    /// Two wrappers holding the same value are equal.
    pub proof fn lemma_view_injective(a: Self, b: Self)
        ensures
            a@ == b@ ==> a == b,
    {
    }
}

impl<T> View for Big<T> {
    type V = T;

    /// The integer's value.
    closed spec fn view(&self) -> T {
        self.0
    }
}

/// `x` with its 2 bytes in reverse order.
pub open spec fn swap_i16(x: i16) -> i16 {
    swap_u16(x as u16) as i16
}

/// What `i16::to_le` (and `i16::from_le`) give on the executing machine: `x` itself on a
/// little-endian machine, `x` with its bytes swapped on a big-endian one.
pub open spec fn host_le_i16(x: i16) -> i16 {
    match endianness() {
        Endian::Little => x,
        Endian::Big => swap_i16(x),
    }
}

/// What `i16::to_be` (and `i16::from_be`) give on the executing machine: `x` itself on a
/// big-endian machine, `x` with its bytes swapped on a little-endian one.
pub open spec fn host_be_i16(x: i16) -> i16 {
    match endianness() {
        Endian::Big => x,
        Endian::Little => swap_i16(x),
    }
}

/// Calls `i16::to_le`, which its documentation describes as a no-op on little-endian
/// targets and a byte swap on big-endian targets.
#[verifier::external_body]
fn i16_to_le(x: i16) -> (r: i16)
    ensures
        r == host_le_i16(x),
{
    x.to_le()
}

/// Calls `i16::to_be`, which its documentation describes as a no-op on big-endian
/// targets and a byte swap on little-endian targets.
#[verifier::external_body]
fn i16_to_be(x: i16) -> (r: i16)
    ensures
        r == host_be_i16(x),
{
    x.to_be()
}

/// Reversing the bytes of a `i16` twice gives it back.
pub proof fn lemma_swap_i16_involutive(x: i16)
    ensures
        swap_i16(swap_i16(x)) == x,
{
    let u = x as u16;
    lemma_swap_u16_involutive(u);
    assert((swap_u16(u) as i16) as u16 == swap_u16(u)) by (bit_vector);
    assert((u as i16) == x) by (bit_vector) requires u == x as u16;
}

/// `x` with its 2 bytes in reverse order.
pub open spec fn swap_u16(x: u16) -> u16 {
    ((x & 0xffu16) << 8u16)
        | ((x >> 8u16) & 0xffu16)
}

/// What `u16::to_le` (and `u16::from_le`) give on the executing machine: `x` itself on a
/// little-endian machine, `x` with its bytes swapped on a big-endian one.
pub open spec fn host_le_u16(x: u16) -> u16 {
    match endianness() {
        Endian::Little => x,
        Endian::Big => swap_u16(x),
    }
}

/// What `u16::to_be` (and `u16::from_be`) give on the executing machine: `x` itself on a
/// big-endian machine, `x` with its bytes swapped on a little-endian one.
pub open spec fn host_be_u16(x: u16) -> u16 {
    match endianness() {
        Endian::Big => x,
        Endian::Little => swap_u16(x),
    }
}

/// Calls `u16::to_le`, which its documentation describes as a no-op on little-endian
/// targets and a byte swap on big-endian targets.
#[verifier::external_body]
fn u16_to_le(x: u16) -> (r: u16)
    ensures
        r == host_le_u16(x),
{
    x.to_le()
}

/// Calls `u16::to_be`, which its documentation describes as a no-op on big-endian
/// targets and a byte swap on little-endian targets.
#[verifier::external_body]
fn u16_to_be(x: u16) -> (r: u16)
    ensures
        r == host_be_u16(x),
{
    x.to_be()
}

/// Reversing the bytes of a `u16` twice gives it back.
pub proof fn lemma_swap_u16_involutive(x: u16)
    ensures
        swap_u16(swap_u16(x)) == x,
{
    assert(swap_u16(swap_u16(x)) == x) by (bit_vector);
}

/// `x` with its 4 bytes in reverse order.
pub open spec fn swap_i32(x: i32) -> i32 {
    swap_u32(x as u32) as i32
}

/// What `i32::to_le` (and `i32::from_le`) give on the executing machine: `x` itself on a
/// little-endian machine, `x` with its bytes swapped on a big-endian one.
pub open spec fn host_le_i32(x: i32) -> i32 {
    match endianness() {
        Endian::Little => x,
        Endian::Big => swap_i32(x),
    }
}

/// What `i32::to_be` (and `i32::from_be`) give on the executing machine: `x` itself on a
/// big-endian machine, `x` with its bytes swapped on a little-endian one.
pub open spec fn host_be_i32(x: i32) -> i32 {
    match endianness() {
        Endian::Big => x,
        Endian::Little => swap_i32(x),
    }
}

/// Calls `i32::to_le`, which its documentation describes as a no-op on little-endian
/// targets and a byte swap on big-endian targets.
#[verifier::external_body]
fn i32_to_le(x: i32) -> (r: i32)
    ensures
        r == host_le_i32(x),
{
    x.to_le()
}

/// Calls `i32::to_be`, which its documentation describes as a no-op on big-endian
/// targets and a byte swap on little-endian targets.
#[verifier::external_body]
fn i32_to_be(x: i32) -> (r: i32)
    ensures
        r == host_be_i32(x),
{
    x.to_be()
}

/// Reversing the bytes of a `i32` twice gives it back.
pub proof fn lemma_swap_i32_involutive(x: i32)
    ensures
        swap_i32(swap_i32(x)) == x,
{
    let u = x as u32;
    lemma_swap_u32_involutive(u);
    assert((swap_u32(u) as i32) as u32 == swap_u32(u)) by (bit_vector);
    assert((u as i32) == x) by (bit_vector) requires u == x as u32;
}

/// `x` with its 4 bytes in reverse order.
pub open spec fn swap_u32(x: u32) -> u32 {
    ((x & 0xffu32) << 24u32)
        | (((x >> 8u32) & 0xffu32) << 16u32)
        | (((x >> 16u32) & 0xffu32) << 8u32)
        | ((x >> 24u32) & 0xffu32)
}

/// What `u32::to_le` (and `u32::from_le`) give on the executing machine: `x` itself on a
/// little-endian machine, `x` with its bytes swapped on a big-endian one.
pub open spec fn host_le_u32(x: u32) -> u32 {
    match endianness() {
        Endian::Little => x,
        Endian::Big => swap_u32(x),
    }
}

/// What `u32::to_be` (and `u32::from_be`) give on the executing machine: `x` itself on a
/// big-endian machine, `x` with its bytes swapped on a little-endian one.
pub open spec fn host_be_u32(x: u32) -> u32 {
    match endianness() {
        Endian::Big => x,
        Endian::Little => swap_u32(x),
    }
}

/// Calls `u32::to_le`, which its documentation describes as a no-op on little-endian
/// targets and a byte swap on big-endian targets.
#[verifier::external_body]
fn u32_to_le(x: u32) -> (r: u32)
    ensures
        r == host_le_u32(x),
{
    x.to_le()
}

/// Calls `u32::to_be`, which its documentation describes as a no-op on big-endian
/// targets and a byte swap on little-endian targets.
#[verifier::external_body]
fn u32_to_be(x: u32) -> (r: u32)
    ensures
        r == host_be_u32(x),
{
    x.to_be()
}

/// Reversing the bytes of a `u32` twice gives it back.
pub proof fn lemma_swap_u32_involutive(x: u32)
    ensures
        swap_u32(swap_u32(x)) == x,
{
    assert(swap_u32(swap_u32(x)) == x) by (bit_vector);
}

/// `x` with its 8 bytes in reverse order.
pub open spec fn swap_i64(x: i64) -> i64 {
    swap_u64(x as u64) as i64
}

/// What `i64::to_le` (and `i64::from_le`) give on the executing machine: `x` itself on a
/// little-endian machine, `x` with its bytes swapped on a big-endian one.
pub open spec fn host_le_i64(x: i64) -> i64 {
    match endianness() {
        Endian::Little => x,
        Endian::Big => swap_i64(x),
    }
}

/// What `i64::to_be` (and `i64::from_be`) give on the executing machine: `x` itself on a
/// big-endian machine, `x` with its bytes swapped on a little-endian one.
pub open spec fn host_be_i64(x: i64) -> i64 {
    match endianness() {
        Endian::Big => x,
        Endian::Little => swap_i64(x),
    }
}

/// Calls `i64::to_le`, which its documentation describes as a no-op on little-endian
/// targets and a byte swap on big-endian targets.
#[verifier::external_body]
fn i64_to_le(x: i64) -> (r: i64)
    ensures
        r == host_le_i64(x),
{
    x.to_le()
}

/// Calls `i64::to_be`, which its documentation describes as a no-op on big-endian
/// targets and a byte swap on little-endian targets.
#[verifier::external_body]
fn i64_to_be(x: i64) -> (r: i64)
    ensures
        r == host_be_i64(x),
{
    x.to_be()
}

/// Reversing the bytes of a `i64` twice gives it back.
pub proof fn lemma_swap_i64_involutive(x: i64)
    ensures
        swap_i64(swap_i64(x)) == x,
{
    let u = x as u64;
    lemma_swap_u64_involutive(u);
    assert((swap_u64(u) as i64) as u64 == swap_u64(u)) by (bit_vector);
    assert((u as i64) == x) by (bit_vector) requires u == x as u64;
}

/// `x` with its 8 bytes in reverse order.
pub open spec fn swap_u64(x: u64) -> u64 {
    ((x & 0xffu64) << 56u64)
        | (((x >> 8u64) & 0xffu64) << 48u64)
        | (((x >> 16u64) & 0xffu64) << 40u64)
        | (((x >> 24u64) & 0xffu64) << 32u64)
        | (((x >> 32u64) & 0xffu64) << 24u64)
        | (((x >> 40u64) & 0xffu64) << 16u64)
        | (((x >> 48u64) & 0xffu64) << 8u64)
        | ((x >> 56u64) & 0xffu64)
}

/// What `u64::to_le` (and `u64::from_le`) give on the executing machine: `x` itself on a
/// little-endian machine, `x` with its bytes swapped on a big-endian one.
pub open spec fn host_le_u64(x: u64) -> u64 {
    match endianness() {
        Endian::Little => x,
        Endian::Big => swap_u64(x),
    }
}

/// What `u64::to_be` (and `u64::from_be`) give on the executing machine: `x` itself on a
/// big-endian machine, `x` with its bytes swapped on a little-endian one.
pub open spec fn host_be_u64(x: u64) -> u64 {
    match endianness() {
        Endian::Big => x,
        Endian::Little => swap_u64(x),
    }
}

/// Calls `u64::to_le`, which its documentation describes as a no-op on little-endian
/// targets and a byte swap on big-endian targets.
#[verifier::external_body]
fn u64_to_le(x: u64) -> (r: u64)
    ensures
        r == host_le_u64(x),
{
    x.to_le()
}

/// Calls `u64::to_be`, which its documentation describes as a no-op on big-endian
/// targets and a byte swap on little-endian targets.
#[verifier::external_body]
fn u64_to_be(x: u64) -> (r: u64)
    ensures
        r == host_be_u64(x),
{
    x.to_be()
}

/// Reversing the bytes of a `u64` twice gives it back.
pub proof fn lemma_swap_u64_involutive(x: u64)
    ensures
        swap_u64(swap_u64(x)) == x,
{
    assert(swap_u64(swap_u64(x)) == x) by (bit_vector);
}

/// `x` with its 16 bytes in reverse order.
pub open spec fn swap_i128(x: i128) -> i128 {
    swap_u128(x as u128) as i128
}

/// What `i128::to_le` (and `i128::from_le`) give on the executing machine: `x` itself on a
/// little-endian machine, `x` with its bytes swapped on a big-endian one.
pub open spec fn host_le_i128(x: i128) -> i128 {
    match endianness() {
        Endian::Little => x,
        Endian::Big => swap_i128(x),
    }
}

/// What `i128::to_be` (and `i128::from_be`) give on the executing machine: `x` itself on a
/// big-endian machine, `x` with its bytes swapped on a little-endian one.
pub open spec fn host_be_i128(x: i128) -> i128 {
    match endianness() {
        Endian::Big => x,
        Endian::Little => swap_i128(x),
    }
}

/// Calls `i128::to_le`, which its documentation describes as a no-op on little-endian
/// targets and a byte swap on big-endian targets.
#[verifier::external_body]
fn i128_to_le(x: i128) -> (r: i128)
    ensures
        r == host_le_i128(x),
{
    x.to_le()
}

/// Calls `i128::to_be`, which its documentation describes as a no-op on big-endian
/// targets and a byte swap on little-endian targets.
#[verifier::external_body]
fn i128_to_be(x: i128) -> (r: i128)
    ensures
        r == host_be_i128(x),
{
    x.to_be()
}

/// Reversing the bytes of a `i128` twice gives it back.
pub proof fn lemma_swap_i128_involutive(x: i128)
    ensures
        swap_i128(swap_i128(x)) == x,
{
    let u = x as u128;
    lemma_swap_u128_involutive(u);
    assert((swap_u128(u) as i128) as u128 == swap_u128(u)) by (bit_vector);
    assert((u as i128) == x) by (bit_vector) requires u == x as u128;
}

/// `x` with its 16 bytes in reverse order.
pub open spec fn swap_u128(x: u128) -> u128 {
    ((x & 0xffu128) << 120u128)
        | (((x >> 8u128) & 0xffu128) << 112u128)
        | (((x >> 16u128) & 0xffu128) << 104u128)
        | (((x >> 24u128) & 0xffu128) << 96u128)
        | (((x >> 32u128) & 0xffu128) << 88u128)
        | (((x >> 40u128) & 0xffu128) << 80u128)
        | (((x >> 48u128) & 0xffu128) << 72u128)
        | (((x >> 56u128) & 0xffu128) << 64u128)
        | (((x >> 64u128) & 0xffu128) << 56u128)
        | (((x >> 72u128) & 0xffu128) << 48u128)
        | (((x >> 80u128) & 0xffu128) << 40u128)
        | (((x >> 88u128) & 0xffu128) << 32u128)
        | (((x >> 96u128) & 0xffu128) << 24u128)
        | (((x >> 104u128) & 0xffu128) << 16u128)
        | (((x >> 112u128) & 0xffu128) << 8u128)
        | ((x >> 120u128) & 0xffu128)
}

/// What `u128::to_le` (and `u128::from_le`) give on the executing machine: `x` itself on a
/// little-endian machine, `x` with its bytes swapped on a big-endian one.
pub open spec fn host_le_u128(x: u128) -> u128 {
    match endianness() {
        Endian::Little => x,
        Endian::Big => swap_u128(x),
    }
}

/// What `u128::to_be` (and `u128::from_be`) give on the executing machine: `x` itself on a
/// big-endian machine, `x` with its bytes swapped on a little-endian one.
pub open spec fn host_be_u128(x: u128) -> u128 {
    match endianness() {
        Endian::Big => x,
        Endian::Little => swap_u128(x),
    }
}

/// Calls `u128::to_le`, which its documentation describes as a no-op on little-endian
/// targets and a byte swap on big-endian targets.
#[verifier::external_body]
fn u128_to_le(x: u128) -> (r: u128)
    ensures
        r == host_le_u128(x),
{
    x.to_le()
}

/// Calls `u128::to_be`, which its documentation describes as a no-op on big-endian
/// targets and a byte swap on little-endian targets.
#[verifier::external_body]
fn u128_to_be(x: u128) -> (r: u128)
    ensures
        r == host_be_u128(x),
{
    x.to_be()
}

/// Reversing the bytes of a `u128` twice gives it back.
pub proof fn lemma_swap_u128_involutive(x: u128)
    ensures
        swap_u128(swap_u128(x)) == x,
{
    assert(swap_u128(swap_u128(x)) == x) by (bit_vector);
}

impl Little<i8> {
    /// Wraps the in-memory representation `val`; a single byte reads the same in either order.
    pub fn from_raw(val: i8) -> (r: Self)
        ensures
            r@ == val,
    {
        Self(val)
    }

    /// The in-memory representation; a single byte reads the same in either order.
    pub fn to_raw(&self) -> (r: i8)
        ensures
            r == self@,
    {
        self.0
    }

    /// Wraps the value `val`.
    pub fn from_native(val: i8) -> (r: Self)
        ensures
            r@ == val,
            r == Self::spec_from_native(val),
    {
        Self(val)
    }

    /// The wrapped value.
    pub fn to_native(&self) -> (r: i8)
        ensures
            r == self@,
    {
        self.0
    }
}

impl Little<u8> {
    /// Wraps the in-memory representation `val`; a single byte reads the same in either order.
    pub fn from_raw(val: u8) -> (r: Self)
        ensures
            r@ == val,
    {
        Self(val)
    }

    /// The in-memory representation; a single byte reads the same in either order.
    pub fn to_raw(&self) -> (r: u8)
        ensures
            r == self@,
    {
        self.0
    }

    /// Wraps the value `val`.
    pub fn from_native(val: u8) -> (r: Self)
        ensures
            r@ == val,
            r == Self::spec_from_native(val),
    {
        Self(val)
    }

    /// The wrapped value.
    pub fn to_native(&self) -> (r: u8)
        ensures
            r == self@,
    {
        self.0
    }
}

impl Little<i16> {
    /// Wraps the in-memory representation `val` of a little-endian encoded integer.
    pub fn from_raw(val: i16) -> (r: Self)
        ensures
            r@ == host_le_i16(val),
    {
        Self(i16_to_le(val))
    }

    /// The in-memory representation of the little-endian encoding of the value.
    pub fn to_raw(&self) -> (r: i16)
        ensures
            r == host_le_i16(self@),
    {
        i16_to_le(self.0)
    }

    /// Wraps the value `val`.
    pub fn from_native(val: i16) -> (r: Self)
        ensures
            r@ == val,
            r == Self::spec_from_native(val),
    {
        Self(val)
    }

    /// The wrapped value.
    pub fn to_native(&self) -> (r: i16)
        ensures
            r == self@,
    {
        self.0
    }
}

impl Little<u16> {
    /// Wraps the in-memory representation `val` of a little-endian encoded integer.
    pub fn from_raw(val: u16) -> (r: Self)
        ensures
            r@ == host_le_u16(val),
    {
        Self(u16_to_le(val))
    }

    /// The in-memory representation of the little-endian encoding of the value.
    pub fn to_raw(&self) -> (r: u16)
        ensures
            r == host_le_u16(self@),
    {
        u16_to_le(self.0)
    }

    /// Wraps the value `val`.
    pub fn from_native(val: u16) -> (r: Self)
        ensures
            r@ == val,
            r == Self::spec_from_native(val),
    {
        Self(val)
    }

    /// The wrapped value.
    pub fn to_native(&self) -> (r: u16)
        ensures
            r == self@,
    {
        self.0
    }
}

impl Little<i32> {
    /// Wraps the in-memory representation `val` of a little-endian encoded integer.
    pub fn from_raw(val: i32) -> (r: Self)
        ensures
            r@ == host_le_i32(val),
    {
        Self(i32_to_le(val))
    }

    /// The in-memory representation of the little-endian encoding of the value.
    pub fn to_raw(&self) -> (r: i32)
        ensures
            r == host_le_i32(self@),
    {
        i32_to_le(self.0)
    }

    /// Wraps the value `val`.
    pub fn from_native(val: i32) -> (r: Self)
        ensures
            r@ == val,
            r == Self::spec_from_native(val),
    {
        Self(val)
    }

    /// The wrapped value.
    pub fn to_native(&self) -> (r: i32)
        ensures
            r == self@,
    {
        self.0
    }
}

impl Little<u32> {
    /// Wraps the in-memory representation `val` of a little-endian encoded integer.
    pub fn from_raw(val: u32) -> (r: Self)
        ensures
            r@ == host_le_u32(val),
    {
        Self(u32_to_le(val))
    }

    /// The in-memory representation of the little-endian encoding of the value.
    pub fn to_raw(&self) -> (r: u32)
        ensures
            r == host_le_u32(self@),
    {
        u32_to_le(self.0)
    }

    /// Wraps the value `val`.
    pub fn from_native(val: u32) -> (r: Self)
        ensures
            r@ == val,
            r == Self::spec_from_native(val),
    {
        Self(val)
    }

    /// The wrapped value.
    pub fn to_native(&self) -> (r: u32)
        ensures
            r == self@,
    {
        self.0
    }
}

impl Little<i64> {
    /// Wraps the in-memory representation `val` of a little-endian encoded integer.
    pub fn from_raw(val: i64) -> (r: Self)
        ensures
            r@ == host_le_i64(val),
    {
        Self(i64_to_le(val))
    }

    /// The in-memory representation of the little-endian encoding of the value.
    pub fn to_raw(&self) -> (r: i64)
        ensures
            r == host_le_i64(self@),
    {
        i64_to_le(self.0)
    }

    /// Wraps the value `val`.
    pub fn from_native(val: i64) -> (r: Self)
        ensures
            r@ == val,
            r == Self::spec_from_native(val),
    {
        Self(val)
    }

    /// The wrapped value.
    pub fn to_native(&self) -> (r: i64)
        ensures
            r == self@,
    {
        self.0
    }
}

impl Little<u64> {
    /// Wraps the in-memory representation `val` of a little-endian encoded integer.
    pub fn from_raw(val: u64) -> (r: Self)
        ensures
            r@ == host_le_u64(val),
    {
        Self(u64_to_le(val))
    }

    /// The in-memory representation of the little-endian encoding of the value.
    pub fn to_raw(&self) -> (r: u64)
        ensures
            r == host_le_u64(self@),
    {
        u64_to_le(self.0)
    }

    /// Wraps the value `val`.
    pub fn from_native(val: u64) -> (r: Self)
        ensures
            r@ == val,
            r == Self::spec_from_native(val),
    {
        Self(val)
    }

    /// The wrapped value.
    pub fn to_native(&self) -> (r: u64)
        ensures
            r == self@,
    {
        self.0
    }
}

impl Little<i128> {
    /// Wraps the in-memory representation `val` of a little-endian encoded integer.
    pub fn from_raw(val: i128) -> (r: Self)
        ensures
            r@ == host_le_i128(val),
    {
        Self(i128_to_le(val))
    }

    /// The in-memory representation of the little-endian encoding of the value.
    pub fn to_raw(&self) -> (r: i128)
        ensures
            r == host_le_i128(self@),
    {
        i128_to_le(self.0)
    }

    /// Wraps the value `val`.
    pub fn from_native(val: i128) -> (r: Self)
        ensures
            r@ == val,
            r == Self::spec_from_native(val),
    {
        Self(val)
    }

    /// The wrapped value.
    pub fn to_native(&self) -> (r: i128)
        ensures
            r == self@,
    {
        self.0
    }
}

impl Little<u128> {
    /// Wraps the in-memory representation `val` of a little-endian encoded integer.
    pub fn from_raw(val: u128) -> (r: Self)
        ensures
            r@ == host_le_u128(val),
    {
        Self(u128_to_le(val))
    }

    /// The in-memory representation of the little-endian encoding of the value.
    pub fn to_raw(&self) -> (r: u128)
        ensures
            r == host_le_u128(self@),
    {
        u128_to_le(self.0)
    }

    /// Wraps the value `val`.
    pub fn from_native(val: u128) -> (r: Self)
        ensures
            r@ == val,
            r == Self::spec_from_native(val),
    {
        Self(val)
    }

    /// The wrapped value.
    pub fn to_native(&self) -> (r: u128)
        ensures
            r == self@,
    {
        self.0
    }
}

impl Big<i8> {
    /// Wraps the in-memory representation `val`; a single byte reads the same in either order.
    pub fn from_raw(val: i8) -> (r: Self)
        ensures
            r@ == val,
    {
        Self(val)
    }

    /// The in-memory representation; a single byte reads the same in either order.
    pub fn to_raw(&self) -> (r: i8)
        ensures
            r == self@,
    {
        self.0
    }

    /// Wraps the value `val`.
    pub fn from_native(val: i8) -> (r: Self)
        ensures
            r@ == val,
            r == Self::spec_from_native(val),
    {
        Self(val)
    }

    /// The wrapped value.
    pub fn to_native(&self) -> (r: i8)
        ensures
            r == self@,
    {
        self.0
    }
}

impl Big<u8> {
    /// Wraps the in-memory representation `val`; a single byte reads the same in either order.
    pub fn from_raw(val: u8) -> (r: Self)
        ensures
            r@ == val,
    {
        Self(val)
    }

    /// The in-memory representation; a single byte reads the same in either order.
    pub fn to_raw(&self) -> (r: u8)
        ensures
            r == self@,
    {
        self.0
    }

    /// Wraps the value `val`.
    pub fn from_native(val: u8) -> (r: Self)
        ensures
            r@ == val,
            r == Self::spec_from_native(val),
    {
        Self(val)
    }

    /// The wrapped value.
    pub fn to_native(&self) -> (r: u8)
        ensures
            r == self@,
    {
        self.0
    }
}

impl Big<i16> {
    /// Wraps the in-memory representation `val` of a big-endian encoded integer.
    pub fn from_raw(val: i16) -> (r: Self)
        ensures
            r@ == host_be_i16(val),
    {
        Self(i16_to_be(val))
    }

    /// The in-memory representation of the big-endian encoding of the value.
    pub fn to_raw(&self) -> (r: i16)
        ensures
            r == host_be_i16(self@),
    {
        i16_to_be(self.0)
    }

    /// Wraps the value `val`.
    pub fn from_native(val: i16) -> (r: Self)
        ensures
            r@ == val,
            r == Self::spec_from_native(val),
    {
        Self(val)
    }

    /// The wrapped value.
    pub fn to_native(&self) -> (r: i16)
        ensures
            r == self@,
    {
        self.0
    }
}

impl Big<u16> {
    /// Wraps the in-memory representation `val` of a big-endian encoded integer.
    pub fn from_raw(val: u16) -> (r: Self)
        ensures
            r@ == host_be_u16(val),
    {
        Self(u16_to_be(val))
    }

    /// The in-memory representation of the big-endian encoding of the value.
    pub fn to_raw(&self) -> (r: u16)
        ensures
            r == host_be_u16(self@),
    {
        u16_to_be(self.0)
    }

    /// Wraps the value `val`.
    pub fn from_native(val: u16) -> (r: Self)
        ensures
            r@ == val,
            r == Self::spec_from_native(val),
    {
        Self(val)
    }

    /// The wrapped value.
    pub fn to_native(&self) -> (r: u16)
        ensures
            r == self@,
    {
        self.0
    }
}

impl Big<i32> {
    /// Wraps the in-memory representation `val` of a big-endian encoded integer.
    pub fn from_raw(val: i32) -> (r: Self)
        ensures
            r@ == host_be_i32(val),
    {
        Self(i32_to_be(val))
    }

    /// The in-memory representation of the big-endian encoding of the value.
    pub fn to_raw(&self) -> (r: i32)
        ensures
            r == host_be_i32(self@),
    {
        i32_to_be(self.0)
    }

    /// Wraps the value `val`.
    pub fn from_native(val: i32) -> (r: Self)
        ensures
            r@ == val,
            r == Self::spec_from_native(val),
    {
        Self(val)
    }

    /// The wrapped value.
    pub fn to_native(&self) -> (r: i32)
        ensures
            r == self@,
    {
        self.0
    }
}

impl Big<u32> {
    /// Wraps the in-memory representation `val` of a big-endian encoded integer.
    pub fn from_raw(val: u32) -> (r: Self)
        ensures
            r@ == host_be_u32(val),
    {
        Self(u32_to_be(val))
    }

    /// The in-memory representation of the big-endian encoding of the value.
    pub fn to_raw(&self) -> (r: u32)
        ensures
            r == host_be_u32(self@),
    {
        u32_to_be(self.0)
    }

    /// Wraps the value `val`.
    pub fn from_native(val: u32) -> (r: Self)
        ensures
            r@ == val,
            r == Self::spec_from_native(val),
    {
        Self(val)
    }

    /// The wrapped value.
    pub fn to_native(&self) -> (r: u32)
        ensures
            r == self@,
    {
        self.0
    }
}

impl Big<i64> {
    /// Wraps the in-memory representation `val` of a big-endian encoded integer.
    pub fn from_raw(val: i64) -> (r: Self)
        ensures
            r@ == host_be_i64(val),
    {
        Self(i64_to_be(val))
    }

    /// The in-memory representation of the big-endian encoding of the value.
    pub fn to_raw(&self) -> (r: i64)
        ensures
            r == host_be_i64(self@),
    {
        i64_to_be(self.0)
    }

    /// Wraps the value `val`.
    pub fn from_native(val: i64) -> (r: Self)
        ensures
            r@ == val,
            r == Self::spec_from_native(val),
    {
        Self(val)
    }

    /// The wrapped value.
    pub fn to_native(&self) -> (r: i64)
        ensures
            r == self@,
    {
        self.0
    }
}

impl Big<u64> {
    /// Wraps the in-memory representation `val` of a big-endian encoded integer.
    pub fn from_raw(val: u64) -> (r: Self)
        ensures
            r@ == host_be_u64(val),
    {
        Self(u64_to_be(val))
    }

    /// The in-memory representation of the big-endian encoding of the value.
    pub fn to_raw(&self) -> (r: u64)
        ensures
            r == host_be_u64(self@),
    {
        u64_to_be(self.0)
    }

    /// Wraps the value `val`.
    pub fn from_native(val: u64) -> (r: Self)
        ensures
            r@ == val,
            r == Self::spec_from_native(val),
    {
        Self(val)
    }

    /// The wrapped value.
    pub fn to_native(&self) -> (r: u64)
        ensures
            r == self@,
    {
        self.0
    }
}

impl Big<i128> {
    /// Wraps the in-memory representation `val` of a big-endian encoded integer.
    pub fn from_raw(val: i128) -> (r: Self)
        ensures
            r@ == host_be_i128(val),
    {
        Self(i128_to_be(val))
    }

    /// The in-memory representation of the big-endian encoding of the value.
    pub fn to_raw(&self) -> (r: i128)
        ensures
            r == host_be_i128(self@),
    {
        i128_to_be(self.0)
    }

    /// Wraps the value `val`.
    pub fn from_native(val: i128) -> (r: Self)
        ensures
            r@ == val,
            r == Self::spec_from_native(val),
    {
        Self(val)
    }

    /// The wrapped value.
    pub fn to_native(&self) -> (r: i128)
        ensures
            r == self@,
    {
        self.0
    }
}

impl Big<u128> {
    /// Wraps the in-memory representation `val` of a big-endian encoded integer.
    pub fn from_raw(val: u128) -> (r: Self)
        ensures
            r@ == host_be_u128(val),
    {
        Self(u128_to_be(val))
    }

    /// The in-memory representation of the big-endian encoding of the value.
    pub fn to_raw(&self) -> (r: u128)
        ensures
            r == host_be_u128(self@),
    {
        u128_to_be(self.0)
    }

    /// Wraps the value `val`.
    pub fn from_native(val: u128) -> (r: Self)
        ensures
            r@ == val,
            r == Self::spec_from_native(val),
    {
        Self(val)
    }

    /// The wrapped value.
    pub fn to_native(&self) -> (r: u128)
        ensures
            r == self@,
    {
        self.0
    }
}

/// Taking a `i16` representation into a `Little` and back out gives it back, whatever the
/// machine's byte order: `Little::from_raw(r).to_raw() == r`.
pub proof fn law_little_i16_raw_roundtrip(raw: i16)
    ensures
        host_le_i16(host_le_i16(raw)) == raw,
{
    lemma_swap_i16_involutive(raw);
}

/// Taking a `i16` representation into a `Big` and back out gives it back, whatever the
/// machine's byte order: `Big::from_raw(r).to_raw() == r`.
pub proof fn law_big_i16_raw_roundtrip(raw: i16)
    ensures
        host_be_i16(host_be_i16(raw)) == raw,
{
    lemma_swap_i16_involutive(raw);
}

/// Taking a `u16` representation into a `Little` and back out gives it back, whatever the
/// machine's byte order: `Little::from_raw(r).to_raw() == r`.
pub proof fn law_little_u16_raw_roundtrip(raw: u16)
    ensures
        host_le_u16(host_le_u16(raw)) == raw,
{
    lemma_swap_u16_involutive(raw);
}

/// Taking a `u16` representation into a `Big` and back out gives it back, whatever the
/// machine's byte order: `Big::from_raw(r).to_raw() == r`.
pub proof fn law_big_u16_raw_roundtrip(raw: u16)
    ensures
        host_be_u16(host_be_u16(raw)) == raw,
{
    lemma_swap_u16_involutive(raw);
}

/// Taking a `i32` representation into a `Little` and back out gives it back, whatever the
/// machine's byte order: `Little::from_raw(r).to_raw() == r`.
pub proof fn law_little_i32_raw_roundtrip(raw: i32)
    ensures
        host_le_i32(host_le_i32(raw)) == raw,
{
    lemma_swap_i32_involutive(raw);
}

/// Taking a `i32` representation into a `Big` and back out gives it back, whatever the
/// machine's byte order: `Big::from_raw(r).to_raw() == r`.
pub proof fn law_big_i32_raw_roundtrip(raw: i32)
    ensures
        host_be_i32(host_be_i32(raw)) == raw,
{
    lemma_swap_i32_involutive(raw);
}

/// Taking a `u32` representation into a `Little` and back out gives it back, whatever the
/// machine's byte order: `Little::from_raw(r).to_raw() == r`.
pub proof fn law_little_u32_raw_roundtrip(raw: u32)
    ensures
        host_le_u32(host_le_u32(raw)) == raw,
{
    lemma_swap_u32_involutive(raw);
}

/// Taking a `u32` representation into a `Big` and back out gives it back, whatever the
/// machine's byte order: `Big::from_raw(r).to_raw() == r`.
pub proof fn law_big_u32_raw_roundtrip(raw: u32)
    ensures
        host_be_u32(host_be_u32(raw)) == raw,
{
    lemma_swap_u32_involutive(raw);
}

/// Taking a `i64` representation into a `Little` and back out gives it back, whatever the
/// machine's byte order: `Little::from_raw(r).to_raw() == r`.
pub proof fn law_little_i64_raw_roundtrip(raw: i64)
    ensures
        host_le_i64(host_le_i64(raw)) == raw,
{
    lemma_swap_i64_involutive(raw);
}

/// Taking a `i64` representation into a `Big` and back out gives it back, whatever the
/// machine's byte order: `Big::from_raw(r).to_raw() == r`.
pub proof fn law_big_i64_raw_roundtrip(raw: i64)
    ensures
        host_be_i64(host_be_i64(raw)) == raw,
{
    lemma_swap_i64_involutive(raw);
}

/// Taking a `u64` representation into a `Little` and back out gives it back, whatever the
/// machine's byte order: `Little::from_raw(r).to_raw() == r`.
pub proof fn law_little_u64_raw_roundtrip(raw: u64)
    ensures
        host_le_u64(host_le_u64(raw)) == raw,
{
    lemma_swap_u64_involutive(raw);
}

/// Taking a `u64` representation into a `Big` and back out gives it back, whatever the
/// machine's byte order: `Big::from_raw(r).to_raw() == r`.
pub proof fn law_big_u64_raw_roundtrip(raw: u64)
    ensures
        host_be_u64(host_be_u64(raw)) == raw,
{
    lemma_swap_u64_involutive(raw);
}

/// Taking a `i128` representation into a `Little` and back out gives it back, whatever the
/// machine's byte order: `Little::from_raw(r).to_raw() == r`.
pub proof fn law_little_i128_raw_roundtrip(raw: i128)
    ensures
        host_le_i128(host_le_i128(raw)) == raw,
{
    lemma_swap_i128_involutive(raw);
}

/// Taking a `i128` representation into a `Big` and back out gives it back, whatever the
/// machine's byte order: `Big::from_raw(r).to_raw() == r`.
pub proof fn law_big_i128_raw_roundtrip(raw: i128)
    ensures
        host_be_i128(host_be_i128(raw)) == raw,
{
    lemma_swap_i128_involutive(raw);
}

/// Taking a `u128` representation into a `Little` and back out gives it back, whatever the
/// machine's byte order: `Little::from_raw(r).to_raw() == r`.
pub proof fn law_little_u128_raw_roundtrip(raw: u128)
    ensures
        host_le_u128(host_le_u128(raw)) == raw,
{
    lemma_swap_u128_involutive(raw);
}

/// Taking a `u128` representation into a `Big` and back out gives it back, whatever the
/// machine's byte order: `Big::from_raw(r).to_raw() == r`.
pub proof fn law_big_u128_raw_roundtrip(raw: u128)
    ensures
        host_be_u128(host_be_u128(raw)) == raw,
{
    lemma_swap_u128_involutive(raw);
}

} // verus!
