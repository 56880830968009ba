//! Byte-buffer helpers: in-place splicing, range reads, and little-endian
//! integer encoding, each with an exact contract.

use vstd::prelude::*;

verus! {

/// Overwrite `dst[off .. off + src.len()]` with `src`, leaving every
/// other byte unchanged.
pub fn splice_bytes(dst: &mut Vec<u8>, off: usize, src: &[u8])
    requires
        off + src@.len() <= old(dst)@.len(),
    ensures
        final(dst)@.len() == old(dst)@.len(),
        forall|i: int|
            0 <= i < final(dst)@.len() ==> final(dst)@[i] == (if off <= i < off + src@.len() {
                src@[i - off]
            } else {
                old(dst)@[i]
            }),
{
    let dlen: usize = dst.len();
    let mut j: usize = 0;
    while j < src.len()
        invariant
            j <= src@.len(),
            off + src@.len() <= dlen,
            dst@.len() == dlen,
            forall|i: int|
                0 <= i < dst@.len() ==> dst@[i] == (if off <= i < off + j {
                    src@[i - off]
                } else {
                    old(dst)@[i]
                }),
        decreases src@.len() - j,
    {
        dst.set(off + j, src[j]);
        j = j + 1;
    }
}

/// Copy `n` bytes starting at `off` out of `src`.
pub fn read_bytes(src: &Vec<u8>, off: usize, n: usize) -> (r: Vec<u8>)
    requires
        off + n <= src@.len(),
    ensures
        r@ == src@.subrange(off as int, off + n),
{
    let slen: usize = src.len();
    let mut out: Vec<u8> = Vec::new();
    let mut j: usize = 0;
    while j < n
        invariant
            j <= n,
            off + n <= slen,
            src@.len() == slen,
            out@ == src@.subrange(off as int, off + j),
        decreases n - j,
    {
        out.push(src[off + j]);
        assert(out@ =~= src@.subrange(off as int, off + j + 1));
        j = j + 1;
    }
    out
}

/// Set `dst[off .. off + n]` to zero, leaving every other byte unchanged.
pub fn zero_range(dst: &mut Vec<u8>, off: usize, n: usize)
    requires
        off + n <= old(dst)@.len(),
    ensures
        final(dst)@.len() == old(dst)@.len(),
        forall|i: int|
            0 <= i < final(dst)@.len() ==> final(dst)@[i] == (if off <= i < off + n {
                0u8
            } else {
                old(dst)@[i]
            }),
{
    let dlen: usize = dst.len();
    let mut j: usize = 0;
    while j < n
        invariant
            j <= n,
            off + n <= dlen,
            dst@.len() == dlen,
            forall|i: int|
                0 <= i < dst@.len() ==> dst@[i] == (if off <= i < off + j {
                    0u8
                } else {
                    old(dst)@[i]
                }),
        decreases n - j,
    {
        dst.set(off + j, 0u8);
        j = j + 1;
    }
}

/// The `u16` stored little-endian at `off`.
pub open spec fn spec_le_u16_at(img: Seq<u8>, off: int) -> u16 {
    (img[off] as u16) | ((img[off + 1] as u16) << 8)
}

/// The `u32` stored little-endian at `off`.
pub open spec fn spec_le_u32_at(img: Seq<u8>, off: int) -> u32 {
    (img[off] as u32) | ((img[off + 1] as u32) << 8) | ((img[off + 2] as u32) << 16) | ((img[off
        + 3] as u32) << 24)
}

/// A `u16` as its two little-endian bytes.
pub open spec fn le_bytes_u16(v: u16) -> Seq<u8> {
    seq![(v & 0xff) as u8, ((v >> 8) & 0xff) as u8]
}

/// A `u32` as its four little-endian bytes.
pub open spec fn le_bytes_u32(v: u32) -> Seq<u8> {
    seq![
        (v & 0xff) as u8,
        ((v >> 8) & 0xff) as u8,
        ((v >> 16) & 0xff) as u8,
        ((v >> 24) & 0xff) as u8,
    ]
}

/// A `u64` as its eight little-endian bytes.
pub open spec fn le_bytes_u64(v: u64) -> Seq<u8> {
    seq![
        (v & 0xff) as u8,
        ((v >> 8) & 0xff) as u8,
        ((v >> 16) & 0xff) as u8,
        ((v >> 24) & 0xff) as u8,
        ((v >> 32) & 0xff) as u8,
        ((v >> 40) & 0xff) as u8,
        ((v >> 48) & 0xff) as u8,
        ((v >> 56) & 0xff) as u8,
    ]
}

/// Write `v` at `dst[off..off + 2]` in little-endian order.
pub fn put_u16(dst: &mut Vec<u8>, off: usize, v: u16)
    requires
        off + 2 <= old(dst)@.len(),
    ensures
        final(dst)@.len() == old(dst)@.len(),
        forall|i: int|
            0 <= i < final(dst)@.len() ==> final(dst)@[i] == (if off <= i < off + 2 {
                le_bytes_u16(v)[i - off]
            } else {
                old(dst)@[i]
            }),
{
    let b: [u8; 2] = [(v & 0xff) as u8, ((v >> 8) & 0xff) as u8];
    splice_bytes(dst, off, b.as_slice());
    proof {
        assert(b@ =~= le_bytes_u16(v));
    }
}

/// Write `v` at `dst[off..off + 4]` in little-endian order.
pub fn put_u32(dst: &mut Vec<u8>, off: usize, v: u32)
    requires
        off + 4 <= old(dst)@.len(),
    ensures
        final(dst)@.len() == old(dst)@.len(),
        forall|i: int|
            0 <= i < final(dst)@.len() ==> final(dst)@[i] == (if off <= i < off + 4 {
                le_bytes_u32(v)[i - off]
            } else {
                old(dst)@[i]
            }),
{
    let b: [u8; 4] = [
        (v & 0xff) as u8,
        ((v >> 8) & 0xff) as u8,
        ((v >> 16) & 0xff) as u8,
        ((v >> 24) & 0xff) as u8,
    ];
    splice_bytes(dst, off, b.as_slice());
    proof {
        assert(b@ =~= le_bytes_u32(v));
    }
}

/// Write `v` at `dst[off..off + 8]` in little-endian order.
pub fn put_u64(dst: &mut Vec<u8>, off: usize, v: u64)
    requires
        off + 8 <= old(dst)@.len(),
    ensures
        final(dst)@.len() == old(dst)@.len(),
        forall|i: int|
            0 <= i < final(dst)@.len() ==> final(dst)@[i] == (if off <= i < off + 8 {
                le_bytes_u64(v)[i - off]
            } else {
                old(dst)@[i]
            }),
{
    let b: [u8; 8] = [
        (v & 0xff) as u8,
        ((v >> 8) & 0xff) as u8,
        ((v >> 16) & 0xff) as u8,
        ((v >> 24) & 0xff) as u8,
        ((v >> 32) & 0xff) as u8,
        ((v >> 40) & 0xff) as u8,
        ((v >> 48) & 0xff) as u8,
        ((v >> 56) & 0xff) as u8,
    ];
    splice_bytes(dst, off, b.as_slice());
    proof {
        assert(b@ =~= le_bytes_u64(v));
    }
}

/// The `u16` encoded little-endian at `src[off..off + 2]`.
pub fn get_u16(src: &Vec<u8>, off: usize) -> (r: u16)
    requires
        off + 2 <= src@.len(),
    ensures
        le_bytes_u16(r) == src@.subrange(off as int, off + 2),
        r == spec_le_u16_at(src@, off as int),
{
    let slen: usize = src.len();
    let r: u16 = (src[off] as u16) | ((src[off + 1] as u16) << 8);
    proof {
        let s = src@.subrange(off as int, off + 2);
        let b0 = src@[off as int];
        let b1 = src@[off + 1];
        assert((r & 0xff) as u8 == b0 && ((r >> 8) & 0xff) as u8 == b1) by (bit_vector)
            requires
                r == (b0 as u16) | ((b1 as u16) << 8),
        ;
        assert(le_bytes_u16(r) =~= s);
    }
    r
}

/// The `u32` encoded little-endian at `src[off..off + 4]`.
pub fn get_u32(src: &Vec<u8>, off: usize) -> (r: u32)
    requires
        off + 4 <= src@.len(),
    ensures
        le_bytes_u32(r) == src@.subrange(off as int, off + 4),
        r == spec_le_u32_at(src@, off as int),
    {
    let slen: usize = src.len();
    let r: u32 = (src[off] as u32) | ((src[off + 1] as u32) << 8) | ((src[off + 2] as u32) << 16)
        | ((src[off + 3] as u32) << 24);
    proof {
        let s = src@.subrange(off as int, off + 4);
        let b0 = src@[off as int];
        let b1 = src@[off + 1];
        let b2 = src@[off + 2];
        let b3 = src@[off + 3];
        assert((r & 0xff) as u8 == b0 && ((r >> 8) & 0xff) as u8 == b1 && ((r >> 16) & 0xff) as u8
            == b2 && ((r >> 24) & 0xff) as u8 == b3) by (bit_vector)
            requires
                r == (b0 as u32) | ((b1 as u32) << 8) | ((b2 as u32) << 16) | ((b3 as u32) << 24),
        ;
        assert(le_bytes_u32(r) =~= s);
    }
    r
}

/// The `u64` encoded little-endian at `src[off..off + 8]`.
pub fn get_u64(src: &Vec<u8>, off: usize) -> (r: u64)
    requires
        off + 8 <= src@.len(),
    ensures
        le_bytes_u64(r) == src@.subrange(off as int, off + 8),
{
    let slen: usize = src.len();
    let r: u64 = (src[off] as u64) | ((src[off + 1] as u64) << 8) | ((src[off + 2] as u64) << 16)
        | ((src[off + 3] as u64) << 24) | ((src[off + 4] as u64) << 32) | ((src[off + 5] as u64)
        << 40) | ((src[off + 6] as u64) << 48) | ((src[off + 7] as u64) << 56);
    proof {
        let s = src@.subrange(off as int, off + 8);
        let b0 = src@[off as int];
        let b1 = src@[off + 1];
        let b2 = src@[off + 2];
        let b3 = src@[off + 3];
        let b4 = src@[off + 4];
        let b5 = src@[off + 5];
        let b6 = src@[off + 6];
        let b7 = src@[off + 7];
        assert((r & 0xff) as u8 == b0 && ((r >> 8) & 0xff) as u8 == b1 && ((r >> 16) & 0xff) as u8
            == b2 && ((r >> 24) & 0xff) as u8 == b3 && ((r >> 32) & 0xff) as u8 == b4 && ((r >> 40)
            & 0xff) as u8 == b5 && ((r >> 48) & 0xff) as u8 == b6 && ((r >> 56) & 0xff) as u8
            == b7) by (bit_vector)
            requires
                r == (b0 as u64) | ((b1 as u64) << 8) | ((b2 as u64) << 16) | ((b3 as u64) << 24)
                    | ((b4 as u64) << 32) | ((b5 as u64) << 40) | ((b6 as u64) << 48) | ((b7
                    as u64) << 56),
        ;
        assert(le_bytes_u64(r) =~= s);
    }
    r
}

} // verus!
