//! Reading little-endian integers and fixed fields out of a byte buffer.
use vstd::prelude::*;

verus! {

/// The two bytes of `s` at `off` read as a little-endian `u16`.
pub open spec fn u16_le_at(s: Seq<u8>, off: int) -> u16 {
    (s[off] + 256 * s[off + 1]) as u16
}

/// The four bytes of `s` at `off` read as a little-endian `u32`.
pub open spec fn u32_le_at(s: Seq<u8>, off: int) -> u32 {
    (s[off] + 0x100 * s[off + 1] + 0x1_0000 * s[off + 2] + 0x100_0000 * s[off + 3]) as u32
}

/// The eight bytes of `s` at `off` read as a little-endian `u64`.
pub open spec fn u64_le_at(s: Seq<u8>, off: int) -> u64 {
    (u32_le_at(s, off) + 0x1_0000_0000 * u32_le_at(s, off + 4)) as u64
}

/// The eight bytes of `s` at `off` read as a little-endian two's complement `i64`.
pub open spec fn i64_le_at(s: Seq<u8>, off: int) -> i64 {
    u64_le_at(s, off) as i64
}

pub(crate) fn read_u16_le(bytes: &[u8], off: usize) -> (r: u16)
    requires
        off + 2 <= bytes.len(),
    ensures
        r == u16_le_at(bytes@, off as int),
{
    bytes[off] as u16 + (bytes[off + 1] as u16) * 256
}

pub(crate) fn read_u32_le(bytes: &[u8], off: usize) -> (r: u32)
    requires
        off + 4 <= bytes.len(),
    ensures
        r == u32_le_at(bytes@, off as int),
{
    bytes[off] as u32 + (bytes[off + 1] as u32) * 0x100 + (bytes[off + 2] as u32) * 0x1_0000 + (
    bytes[off + 3] as u32) * 0x100_0000
}

pub(crate) fn read_u64_le(bytes: &[u8], off: usize) -> (r: u64)
    requires
        off + 8 <= bytes.len(),
    ensures
        r == u64_le_at(bytes@, off as int),
{
    let lo = read_u32_le(bytes, off);
    let hi = read_u32_le(bytes, off + 4);
    lo as u64 + (hi as u64) * 0x1_0000_0000
}

pub(crate) fn read_i64_le(bytes: &[u8], off: usize) -> (r: i64)
    requires
        off + 8 <= bytes.len(),
    ensures
        r == i64_le_at(bytes@, off as int),
{
    read_u64_le(bytes, off) as i64
}

/// Copies the `N` bytes of `bytes` at `off` into an array.
pub(crate) fn copy_field<const N: usize>(bytes: &[u8], off: usize) -> (r: [u8; N])
    requires
        off + N <= bytes.len(),
    ensures
        r@ == bytes@.subrange(off as int, off + N),
{
    let mut out: [u8; N] = [0u8; N];
    let mut i: usize = 0;
    while i < N
        invariant
            off + N <= bytes.len(),
            i <= N,
            out@.len() == N,
            forall|j: int| 0 <= j < i ==> out@[j] == bytes@[off + j],
        decreases N - i,
    {
        out[i] = bytes[off + i];
        i += 1;
    }
    assert(out@ =~= bytes@.subrange(off as int, off + N));
    out
}

} // verus!
