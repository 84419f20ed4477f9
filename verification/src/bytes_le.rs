//! Little-endian integer fields read out of a raw byte buffer.
//!
//! Every multi-byte field of the executable image format is a little-endian
//! integer at a fixed byte offset; these are the only primitives the parser
//! needs.

use vstd::prelude::*;

verus! {

/// The 16-bit little-endian integer stored at `off` in `s`.
pub open spec fn le16_at(s: Seq<u8>, off: int) -> int
    recommends
        0 <= off,
        off + 2 <= s.len(),
{
    s[off] + 0x100 * s[off + 1]
}

/// The 32-bit little-endian integer stored at `off` in `s`.
pub open spec fn le32_at(s: Seq<u8>, off: int) -> int
    recommends
        0 <= off,
        off + 4 <= s.len(),
{
    s[off] + 0x100 * s[off + 1] + 0x1_0000 * s[off + 2] + 0x100_0000 * s[off + 3]
}

/// The 64-bit little-endian integer stored at `off` in `s`.
pub open spec fn le64_at(s: Seq<u8>, off: int) -> int
    recommends
        0 <= off,
        off + 8 <= s.len(),
{
    le32_at(s, off) + 0x1_0000_0000 * le32_at(s, off + 4)
}

/// Reads the 16-bit little-endian field at `off`.
pub fn read_u16_le(data: &Vec<u8>, off: usize) -> (r: u16)
    requires
        off + 2 <= data.len(),
    ensures
        r == le16_at(data@, off as int),
{
    data[off] as u16 + (data[off + 1] as u16) * 0x100
}

/// Reads the 32-bit little-endian field at `off`.
pub fn read_u32_le(data: &Vec<u8>, off: usize) -> (r: u32)
    requires
        off + 4 <= data.len(),
    ensures
        r == le32_at(data@, off as int),
{
    data[off] as u32 + (data[off + 1] as u32) * 0x100 + (data[off + 2] as u32) * 0x1_0000
        + (data[off + 3] as u32) * 0x100_0000
}

/// Reads the 64-bit little-endian field at `off`.
pub fn read_u64_le(data: &Vec<u8>, off: usize) -> (r: u64)
    requires
        off + 8 <= data.len(),
    ensures
        r == le64_at(data@, off as int),
{
    let lo = read_u32_le(data, off);
    let hi = read_u32_le(data, off + 4);
    lo as u64 + (hi as u64) * 0x1_0000_0000
}

} // verus!
