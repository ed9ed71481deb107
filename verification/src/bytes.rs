//! Little-endian integer readers over byte slices, and helpers for the
//! ASCII-derived UTF-16LE stream names used throughout a compound file.

use vstd::prelude::*;

verus! {

/// The little-endian 16-bit value stored at offset `i` of `b`.
pub open spec fn le16(b: Seq<u8>, i: int) -> u16
    recommends
        0 <= i,
        i + 2 <= b.len(),
{
    ((b[i] as int) + (b[i + 1] as int) * 0x100) as u16
}

/// The little-endian 32-bit value stored at offset `i` of `b`.
pub open spec fn le32(b: Seq<u8>, i: int) -> u32
    recommends
        0 <= i,
        i + 4 <= b.len(),
{
    ((b[i] as int) + (b[i + 1] as int) * 0x100 + (b[i + 2] as int) * 0x1_0000 + (b[i + 3]
        as int) * 0x100_0000) as u32
}

/// The little-endian 64-bit value stored at offset `i` of `b`.
pub open spec fn le64(b: Seq<u8>, i: int) -> u64
    recommends
        0 <= i,
        i + 8 <= b.len(),
{
    ((le32(b, i) as int) + (le32(b, i + 4) as int) * 0x1_0000_0000) as u64
}

pub fn read_le16(b: &[u8], i: usize) -> (r: u16)
    requires
        i + 2 <= b@.len(),
    ensures
        r == le16(b@, i as int),
{
    (b[i] as u16) + (b[i + 1] as u16) * 0x100
}

pub fn read_le32(b: &[u8], i: usize) -> (r: u32)
    requires
        i + 4 <= b@.len(),
    ensures
        r == le32(b@, i as int),
{
    (b[i] as u32) + (b[i + 1] as u32) * 0x100 + (b[i + 2] as u32) * 0x1_0000 + (b[i + 3]
        as u32) * 0x100_0000
}

pub fn read_le64(b: &[u8], i: usize) -> (r: u64)
    requires
        i + 8 <= b@.len(),
    ensures
        r == le64(b@, i as int),
{
    let n: usize = b.len();
    assert(i + 8 <= n);
    (read_le32(b, i) as u64) + (read_le32(b, i + 4) as u64) * 0x1_0000_0000
}

/// The two's-complement reading of a 16-bit value.
pub open spec fn as_i16(x: u16) -> i16 {
    if x <= 0x7FFF {
        x as i16
    } else {
        (x - 0x1_0000) as i16
    }
}

/// The two's-complement reading of a 32-bit value.
pub open spec fn as_i32(x: u32) -> i32 {
    if x <= 0x7FFF_FFFF {
        x as i32
    } else {
        (x - 0x1_0000_0000) as i32
    }
}

/// The two's-complement reading of a 64-bit value.
pub open spec fn as_i64(x: u64) -> i64 {
    if x <= 0x7FFF_FFFF_FFFF_FFFF {
        x as i64
    } else {
        (x - 0x1_0000_0000_0000_0000) as i64
    }
}

pub fn to_i16(x: u16) -> (r: i16)
    ensures
        r == as_i16(x),
{
    if x <= 0x7FFF {
        x as i16
    } else {
        let off: u16 = x - 0x8000;
        i16::MIN + (off as i16)
    }
}

pub fn to_i32(x: u32) -> (r: i32)
    ensures
        r == as_i32(x),
{
    if x <= 0x7FFF_FFFF {
        x as i32
    } else {
        let off: u32 = x - 0x8000_0000;
        i32::MIN + (off as i32)
    }
}

pub fn to_i64(x: u64) -> (r: i64)
    ensures
        r == as_i64(x),
{
    if x <= 0x7FFF_FFFF_FFFF_FFFF {
        x as i64
    } else {
        let off: u64 = x - 0x8000_0000_0000_0000;
        i64::MIN + (off as i64)
    }
}

/// Copies `b[start .. start + len]` into a fresh vector.
pub fn copy_range(b: &[u8], start: usize, len: usize) -> (r: Vec<u8>)
    requires
        start + len <= b@.len(),
    ensures
        r@ == b@.subrange(start as int, start as int + len as int),
{
    let n: usize = b.len();
    let mut out: Vec<u8> = Vec::new();
    let mut k: usize = 0;
    while k < len
        invariant
            k <= len,
            start + len <= n,
            n == b@.len(),
            out@ == b@.subrange(start as int, start as int + k as int),
        decreases len - k,
    {
        out.push(b[start + k]);
        assert(out@ =~= b@.subrange(start as int, start as int + (k + 1) as int));
        k = k + 1;
    }
    out
}

} // verus!
