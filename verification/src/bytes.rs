//! Fixed-width integers read from byte sequences.

use vstd::prelude::*;

verus! {

/// The little-endian value of the `n` bytes of `s` from `off`: the first
/// byte is the lowest.
pub open spec fn le_bytes(s: Seq<u8>, off: int, n: nat) -> int
    decreases n,
{
    if n == 0 {
        0
    } else {
        s[off] + 256 * le_bytes(s, off + 1, (n - 1) as nat)
    }
}

/// Little-endian `u16` at `off`.
pub open spec fn le_u16(s: Seq<u8>, off: int) -> int {
    s[off] + 256 * s[off + 1]
}

/// Little-endian `u32` at `off`.
pub open spec fn le_u32(s: Seq<u8>, off: int) -> int {
    le_u16(s, off) + 65536 * le_u16(s, off + 2)
}

/// Little-endian `u64` at `off`.
pub open spec fn le_u64(s: Seq<u8>, off: int) -> int {
    le_u32(s, off) + 4294967296 * le_u32(s, off + 4)
}

/// Big-endian `u32` at `off`.
pub open spec fn be_u32(s: Seq<u8>, off: int) -> int {
    16777216 * s[off] + 65536 * s[off + 1] + 256 * s[off + 2] + s[off + 3]
}

pub fn read_u16_le(bytes: &[u8], off: usize) -> (r: u16)
    requires
        off + 2 <= bytes.len(),
    ensures
        r == le_u16(bytes@, off as int),
{
    let lo = bytes[off] as u16;
    let hi = bytes[off + 1] as u16;
    lo + hi * 256
}

pub fn read_u32_le(bytes: &[u8], off: usize) -> (r: u32)
    requires
        off + 4 <= bytes.len(),
    ensures
        r == le_u32(bytes@, off as int),
{
    let lo = read_u16_le(bytes, off) as u32;
    let hi = read_u16_le(bytes, off + 2) as u32;
    lo + hi * 65536
}

pub fn read_u64_le(bytes: &[u8], off: usize) -> (r: u64)
    requires
        off + 8 <= bytes.len(),
    ensures
        r == le_u64(bytes@, off as int),
{
    let lo = read_u32_le(bytes, off) as u64;
    let hi = read_u32_le(bytes, off + 4) as u64;
    lo + hi * 4294967296
}

pub fn read_u32_be(bytes: &[u8], off: usize) -> (r: u32)
    requires
        off + 4 <= bytes.len(),
    ensures
        r == be_u32(bytes@, off as int),
{
    let b0 = bytes[off] as u32;
    let b1 = bytes[off + 1] as u32;
    let b2 = bytes[off + 2] as u32;
    let b3 = bytes[off + 3] as u32;
    b0 * 16777216 + b1 * 65536 + b2 * 256 + b3
}

} // verus!
