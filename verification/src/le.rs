//! Little-endian integers.

use vstd::prelude::*;

verus! {

/// The 16-bit value whose little-endian encoding is the first two bytes of `s`.
pub open spec fn le_u16(s: Seq<u8>) -> int
    recommends
        s.len() >= 2,
{
    s[0] + 0x100 * s[1]
}

/// The 32-bit value whose little-endian encoding is the first four bytes of `s`.
pub open spec fn le_u32(s: Seq<u8>) -> int
    recommends
        s.len() >= 4,
{
    s[0] + 0x100 * s[1] + 0x1_0000 * s[2] + 0x100_0000 * s[3]
}

/// Decodes the first two bytes of `slice` as a little-endian `u16`.
pub fn u16_from_le_byte_slice(slice: &[u8]) -> (value: u16)
    requires
        slice@.len() >= 2,
    ensures
        value == le_u16(slice@),
{
    let b0: u16 = slice[0] as u16;
    let b1: u16 = slice[1] as u16;
    b0 + 0x100 * b1
}

/// Decodes the first four bytes of `slice` as a little-endian `u32`.
pub fn u32_from_le_byte_slice(slice: &[u8]) -> (value: u32)
    requires
        slice@.len() >= 4,
    ensures
        value == le_u32(slice@),
{
    let b0: u32 = slice[0] as u32;
    let b1: u32 = slice[1] as u32;
    let b2: u32 = slice[2] as u32;
    let b3: u32 = slice[3] as u32;
    b0 + 0x100 * b1 + 0x1_0000 * b2 + 0x100_0000 * b3
}

} // verus!
