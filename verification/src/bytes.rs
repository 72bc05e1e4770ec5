//! Little-endian integers at fixed positions of a byte buffer.

use vstd::prelude::*;

verus! {

/// Value of the two bytes at `at`, least significant byte first.
pub open spec fn spec_le_u16(s: Seq<u8>, at: int) -> u16 {
    (s[at] as int + 0x100 * s[at + 1] as int) as u16
}

/// Value of the three bytes at `at`, least significant byte first.
pub open spec fn spec_le_u24(s: Seq<u8>, at: int) -> u32 {
    (s[at] as int + 0x100 * s[at + 1] as int + 0x1_0000 * s[at + 2] as int) as u32
}

/// Value of the four bytes at `at`, least significant byte first.
pub open spec fn spec_le_u32(s: Seq<u8>, at: int) -> u32 {
    (s[at] as int + 0x100 * s[at + 1] as int + 0x1_0000 * s[at + 2] as int + 0x100_0000 * s[at
        + 3] as int) as u32
}

/// Reads the little-endian `u16` at `at`.
pub fn le_u16(data: &[u8], at: usize) -> (value: u16)
    requires
        at + 2 <= data@.len(),
    ensures
        value == spec_le_u16(data@, at as int),
{
    let low = data[at] as u16;
    let high = data[at + 1] as u16;
    low + high * 0x100
}

/// Reads the little-endian 24-bit value at `at`, zero-extended to 32 bits.
pub fn le_u24(data: &[u8], at: usize) -> (value: u32)
    requires
        at + 3 <= data@.len(),
    ensures
        value == spec_le_u24(data@, at as int),
        value < 0x100_0000,
{
    let b0 = data[at] as u32;
    let b1 = data[at + 1] as u32;
    let b2 = data[at + 2] as u32;
    b0 + b1 * 0x100 + b2 * 0x1_0000
}

/// Reads the little-endian `u32` at `at`.
pub fn le_u32(data: &[u8], at: usize) -> (value: u32)
    requires
        at + 4 <= data@.len(),
    ensures
        value == spec_le_u32(data@, at as int),
{
    let b0 = data[at] as u32;
    let b1 = data[at + 1] as u32;
    let b2 = data[at + 2] as u32;
    let b3 = data[at + 3] as u32;
    b0 + b1 * 0x100 + b2 * 0x1_0000 + b3 * 0x100_0000
}

/// Replacing any one of the four bytes of a value by a different byte gives
/// a different value.
pub proof fn lemma_le_u32_byte_matters(s: Seq<u8>, at: int, k: int, byte: u8)
    requires
        0 <= at,
        at + 4 <= s.len(),
        0 <= k < 4,
        byte != s[at + k],
    ensures
        spec_le_u32(s.update(at + k, byte), at) != spec_le_u32(s, at),
{
}

} // verus!
