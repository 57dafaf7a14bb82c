//! Little-endian integer decoding on plain byte buffers.

use vstd::prelude::*;

verus! {

/// The unsigned 16-bit value encoded little-endian by the two bytes at `pos`.
pub open spec fn u16_le(d: Seq<u8>, pos: int) -> u16 {
    (d[pos] + d[pos + 1] * 0x100) as u16
}

/// The unsigned 64-bit value encoded little-endian by the eight bytes at `pos`.
pub open spec fn u64_le(d: Seq<u8>, pos: int) -> u64 {
    (d[pos] + d[pos + 1] * 0x100 + d[pos + 2] * 0x1_0000 + d[pos + 3] * 0x100_0000 + d[pos
        + 4] * 0x1_0000_0000 + d[pos + 5] * 0x100_0000_0000 + d[pos + 6] * 0x1_0000_0000_0000 + d[
        pos + 7] * 0x100_0000_0000_0000) as u64
}

/// Reads the little-endian unsigned 16-bit value at `pos`.
pub(crate) fn read_u16_le(d: &Vec<u8>, pos: usize) -> (r: u16)
    requires
        pos + 2 <= d@.len(),
    ensures
        r == u16_le(d@, pos as int),
{
    let n: usize = d.len();
    proof {
        assert(pos + 2 <= n);
    }
    d[pos] as u16 + d[pos + 1] as u16 * 0x100
}

/// Reads the little-endian unsigned 64-bit value at `pos`.
pub(crate) fn read_u64_le(d: &Vec<u8>, pos: usize) -> (r: u64)
    requires
        pos + 8 <= d@.len(),
    ensures
        r == u64_le(d@, pos as int),
{
    let n: usize = d.len();
    proof {
        assert(pos + 8 <= n);
    }
    d[pos] as u64 + d[pos + 1] as u64 * 0x100 + d[pos + 2] as u64 * 0x1_0000 + d[pos + 3] as u64
        * 0x100_0000 + d[pos + 4] as u64 * 0x1_0000_0000 + d[pos + 5] as u64 * 0x100_0000_0000 + d[
        pos + 6] as u64 * 0x1_0000_0000_0000 + d[pos + 7] as u64 * 0x100_0000_0000_0000
}

} // verus!
