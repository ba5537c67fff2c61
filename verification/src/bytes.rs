//! Little-endian integer views of a byte sequence, together with the
//! executable readers that realise them on a byte slice.

use vstd::prelude::*;

verus! {

/// The 16-bit little-endian integer formed by the two bytes at `i`.
pub open spec fn le_u16_at(b: Seq<u8>, i: int) -> u16
    recommends
        0 <= i,
        i + 2 <= b.len(),
{
    (b[i] + b[i + 1] * 0x100) as u16
}

/// The 32-bit little-endian integer formed by the four bytes at `i`.
pub open spec fn le_u32_at(b: Seq<u8>, i: int) -> u32
    recommends
        0 <= i,
        i + 4 <= b.len(),
{
    (b[i] + b[i + 1] * 0x100 + b[i + 2] * 0x1_0000 + b[i + 3] * 0x100_0000) as u32
}

/// The 128-bit little-endian integer formed by the sixteen bytes at `i`.
pub open spec fn le_u128_at(b: Seq<u8>, i: int) -> u128
    recommends
        0 <= i,
        i + 16 <= b.len(),
{
    (b[i]
        + b[i + 1] * 0x100
        + b[i + 2] * 0x1_0000
        + b[i + 3] * 0x100_0000
        + b[i + 4] * 0x1_0000_0000
        + b[i + 5] * 0x100_0000_0000
        + b[i + 6] * 0x1_0000_0000_0000
        + b[i + 7] * 0x100_0000_0000_0000
        + b[i + 8] * 0x1_0000_0000_0000_0000
        + b[i + 9] * 0x100_0000_0000_0000_0000
        + b[i + 10] * 0x1_0000_0000_0000_0000_0000
        + b[i + 11] * 0x100_0000_0000_0000_0000_0000
        + b[i + 12] * 0x1_0000_0000_0000_0000_0000_0000
        + b[i + 13] * 0x100_0000_0000_0000_0000_0000_0000
        + b[i + 14] * 0x1_0000_0000_0000_0000_0000_0000_0000
        + b[i + 15] * 0x100_0000_0000_0000_0000_0000_0000_0000) as u128
}

/// Reads the byte at `pos`.
pub fn read_u8(b: &[u8], pos: usize) -> (r: u8)
    requires
        pos < b@.len(),
    ensures
        r == b@[pos as int],
{
    b[pos]
}

/// Reads the 16-bit little-endian integer at `pos`.
pub fn read_le_u16(b: &[u8], pos: usize) -> (r: u16)
    requires
        pos + 2 <= b@.len(),
    ensures
        r == le_u16_at(b@, pos as int),
{
    let b0: u16 = b[pos] as u16;
    let b1: u16 = b[pos + 1] as u16;
    b0 + b1 * 0x100
}

/// Reads the 32-bit little-endian integer at `pos`.
pub fn read_le_u32(b: &[u8], pos: usize) -> (r: u32)
    requires
        pos + 4 <= b@.len(),
    ensures
        r == le_u32_at(b@, pos as int),
{
    let b0: u32 = b[pos] as u32;
    let b1: u32 = b[pos + 1] as u32;
    let b2: u32 = b[pos + 2] as u32;
    let b3: u32 = b[pos + 3] as u32;
    b0 + b1 * 0x100 + b2 * 0x1_0000 + b3 * 0x100_0000
}

/// Reads the 128-bit little-endian integer at `pos`.
pub fn read_le_u128(b: &[u8], pos: usize) -> (r: u128)
    requires
        pos + 16 <= b@.len(),
    ensures
        r == le_u128_at(b@, pos as int),
{
    let b0: u128 = b[pos] as u128;
    let b1: u128 = b[pos + 1] as u128;
    let b2: u128 = b[pos + 2] as u128;
    let b3: u128 = b[pos + 3] as u128;
    let b4: u128 = b[pos + 4] as u128;
    let b5: u128 = b[pos + 5] as u128;
    let b6: u128 = b[pos + 6] as u128;
    let b7: u128 = b[pos + 7] as u128;
    let b8: u128 = b[pos + 8] as u128;
    let b9: u128 = b[pos + 9] as u128;
    let b10: u128 = b[pos + 10] as u128;
    let b11: u128 = b[pos + 11] as u128;
    let b12: u128 = b[pos + 12] as u128;
    let b13: u128 = b[pos + 13] as u128;
    let b14: u128 = b[pos + 14] as u128;
    let b15: u128 = b[pos + 15] as u128;
    b0
        + b1 * 0x100
        + b2 * 0x1_0000
        + b3 * 0x100_0000
        + b4 * 0x1_0000_0000
        + b5 * 0x100_0000_0000
        + b6 * 0x1_0000_0000_0000
        + b7 * 0x100_0000_0000_0000
        + b8 * 0x1_0000_0000_0000_0000
        + b9 * 0x100_0000_0000_0000_0000
        + b10 * 0x1_0000_0000_0000_0000_0000
        + b11 * 0x100_0000_0000_0000_0000_0000
        + b12 * 0x1_0000_0000_0000_0000_0000_0000
        + b13 * 0x100_0000_0000_0000_0000_0000_0000
        + b14 * 0x1_0000_0000_0000_0000_0000_0000_0000
        + b15 * 0x100_0000_0000_0000_0000_0000_0000_0000
}

} // verus!
