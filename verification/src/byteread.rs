//! Big-endian integer reads over byte slices.
//!
//! Every multi-byte field in the formats handled by this crate is stored
//! big-endian. The spec functions here are the single definition of what a
//! big-endian read means; every decoder's contract is phrased over them.
use vstd::prelude::*;

verus! {

broadcast use vstd::slice::axiom_spec_len;

/// Mathematical value of two big-endian bytes.
pub open spec fn spec_be16(b0: u8, b1: u8) -> u16 {
    (b0 as u16 * 256 + b1 as u16) as u16
}

/// Mathematical value of four big-endian bytes.
pub open spec fn spec_be32(b0: u8, b1: u8, b2: u8, b3: u8) -> u32 {
    (b0 as u32 * 0x1000000 + b1 as u32 * 0x10000 + b2 as u32 * 0x100 + b3 as u32) as u32
}

/// Mathematical value of eight big-endian bytes.
pub open spec fn spec_be64(s: Seq<u8>) -> u64
    recommends
        s.len() == 8,
{
    (spec_be32(s[0], s[1], s[2], s[3]) as u64 * 0x100000000 + spec_be32(
        s[4],
        s[5],
        s[6],
        s[7],
    ) as u64) as u64
}

/// Big-endian `u16` taken from the slice as `spec_be16` describes.
pub open spec fn be16_at(s: Seq<u8>, off: int) -> u16
    recommends
        0 <= off,
        off + 2 <= s.len(),
{
    spec_be16(s[off], s[off + 1])
}

/// Big-endian `u32` taken from the slice as `spec_be32` describes.
pub open spec fn be32_at(s: Seq<u8>, off: int) -> u32
    recommends
        0 <= off,
        off + 4 <= s.len(),
{
    spec_be32(s[off], s[off + 1], s[off + 2], s[off + 3])
}

/// Big-endian `u64` taken from the slice as `spec_be64` describes.
pub open spec fn be64_at(s: Seq<u8>, off: int) -> u64
    recommends
        0 <= off,
        off + 8 <= s.len(),
{
    spec_be64(s.subrange(off, off + 8))
}

/// Reads one byte.
pub fn u8_at(data: &[u8], off: usize) -> (r: u8)
    requires
        off < data@.len(),
    ensures
        r == data@[off as int],
{
    *vstd::slice::slice_index_get(data, off)
}

/// Reads a big-endian `u16`.
pub fn u16_be_at(data: &[u8], off: usize) -> (r: u16)
    requires
        off + 2 <= data@.len(),
    ensures
        r == be16_at(data@, off as int),
{
    let n: usize = data.len();
    let b0 = *vstd::slice::slice_index_get(data, off);
    let b1 = *vstd::slice::slice_index_get(data, off + 1);
    b0 as u16 * 256 + b1 as u16
}

/// Reads a big-endian `i16` (the same bytes as `u16_be_at`, reinterpreted).
pub fn i16_be_at(data: &[u8], off: usize) -> (r: i16)
    requires
        off + 2 <= data@.len(),
    ensures
        r == be16_at(data@, off as int) as i16,
{
    u16_be_at(data, off) as i16
}

/// Reads a big-endian `u32`.
pub fn u32_be_at(data: &[u8], off: usize) -> (r: u32)
    requires
        off + 4 <= data@.len(),
    ensures
        r == be32_at(data@, off as int),
{
    let n: usize = data.len();
    let b0 = *vstd::slice::slice_index_get(data, off);
    let b1 = *vstd::slice::slice_index_get(data, off + 1);
    let b2 = *vstd::slice::slice_index_get(data, off + 2);
    let b3 = *vstd::slice::slice_index_get(data, off + 3);
    b0 as u32 * 0x1000000 + b1 as u32 * 0x10000 + b2 as u32 * 0x100 + b3 as u32
}

/// Reads a big-endian `i32` (the same bytes as `u32_be_at`, reinterpreted).
pub fn i32_be_at(data: &[u8], off: usize) -> (r: i32)
    requires
        off + 4 <= data@.len(),
    ensures
        r == be32_at(data@, off as int) as i32,
{
    u32_be_at(data, off) as i32
}

/// Reads a big-endian `u64`.
pub fn u64_be_at(data: &[u8], off: usize) -> (r: u64)
    requires
        off + 8 <= data@.len(),
    ensures
        r == be64_at(data@, off as int),
{
    let n: usize = data.len();
    let hi = u32_be_at(data, off);
    let lo = u32_be_at(data, off + 4);
    let r = hi as u64 * 0x100000000 + lo as u64;
    proof {
        let sub = data@.subrange(off as int, off as int + 8);
        assert(sub[0] == data@[off as int]);
        assert(sub[1] == data@[off as int + 1]);
        assert(sub[2] == data@[off as int + 2]);
        assert(sub[3] == data@[off as int + 3]);
        assert(sub[4] == data@[off as int + 4]);
        assert(sub[5] == data@[off as int + 5]);
        assert(sub[6] == data@[off as int + 6]);
        assert(sub[7] == data@[off as int + 7]);
    }
    r
}

} // verus!
