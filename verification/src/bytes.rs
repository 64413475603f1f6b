//! Little-endian byte encodings and bounded byte-buffer operations.
//!
//! Submission entries, completion entries, and identify payloads are all
//! little-endian images at fixed offsets; every encoder and decoder in the
//! crate bottoms out in the helpers of this module.

use vstd::prelude::*;

verus! {

/// The two little-endian bytes of a 16-bit value.
pub open spec fn le16_bytes(x: u16) -> Seq<u8> {
    seq![(x & 0xff) as u8, ((x >> 8) & 0xff) as u8]
}

/// The four little-endian bytes of a 32-bit value.
pub open spec fn le32_bytes(x: u32) -> Seq<u8> {
    seq![
        (x & 0xff) as u8,
        ((x >> 8) & 0xff) as u8,
        ((x >> 16) & 0xff) as u8,
        ((x >> 24) & 0xff) as u8,
    ]
}

/// The eight little-endian bytes of a 64-bit value.
pub open spec fn le64_bytes(x: u64) -> Seq<u8> {
    seq![
        (x & 0xff) as u8,
        ((x >> 8) & 0xff) as u8,
        ((x >> 16) & 0xff) as u8,
        ((x >> 24) & 0xff) as u8,
        ((x >> 32) & 0xff) as u8,
        ((x >> 40) & 0xff) as u8,
        ((x >> 48) & 0xff) as u8,
        ((x >> 56) & 0xff) as u8,
    ]
}

/// The 16-bit value held by two little-endian bytes.
pub open spec fn le16_val(s: Seq<u8>) -> u16
    recommends
        s.len() == 2,
{
    (s[0] as u16) | ((s[1] as u16) << 8)
}

/// The 32-bit value held by four little-endian bytes.
pub open spec fn le32_val(s: Seq<u8>) -> u32
    recommends
        s.len() == 4,
{
    (s[0] as u32) | ((s[1] as u32) << 8) | ((s[2] as u32) << 16) | ((s[3] as u32) << 24)
}

/// The 64-bit value held by eight little-endian bytes.
pub open spec fn le64_val(s: Seq<u8>) -> u64
    recommends
        s.len() == 8,
{
    (s[0] as u64) | ((s[1] as u64) << 8) | ((s[2] as u64) << 16) | ((s[3] as u64) << 24)
        | ((s[4] as u64) << 32) | ((s[5] as u64) << 40) | ((s[6] as u64) << 48)
        | ((s[7] as u64) << 56)
}

/// `s` with the bytes of `v` spliced in at offset `at`; everything else kept.
pub open spec fn splice(s: Seq<u8>, at: int, v: Seq<u8>) -> Seq<u8>
    recommends
        0 <= at,
        at + v.len() <= s.len(),
{
    s.subrange(0, at) + v + s.subrange(at + v.len(), s.len() as int)
}

/// What `splice` does to each position.
pub proof fn lemma_splice_points(s: Seq<u8>, at: int, v: Seq<u8>)
    requires
        0 <= at,
        at + v.len() <= s.len(),
    ensures
        splice(s, at, v).len() == s.len(),
        forall|j: int|
            0 <= j < s.len() ==> splice(s, at, v)[j] == if at <= j < at + v.len() {
                v[j - at]
            } else {
                s[j]
            },
{
}

/// Decoding the little-endian image of a 16-bit value gives the value back.
pub proof fn lemma_le16_roundtrip(x: u16)
    ensures
        le16_val(le16_bytes(x)) == x,
{
    assert(((x & 0xff) as u8 as u16) | ((((x >> 8) & 0xff) as u8 as u16) << 8) == x)
        by (bit_vector);
}

/// Decoding the little-endian image of a 32-bit value gives the value back.
pub proof fn lemma_le32_roundtrip(x: u32)
    ensures
        le32_val(le32_bytes(x)) == x,
{
    assert(((x & 0xff) as u8 as u32) | ((((x >> 8) & 0xff) as u8 as u32) << 8)
        | ((((x >> 16) & 0xff) as u8 as u32) << 16) | ((((x >> 24) & 0xff) as u8 as u32) << 24)
        == x) by (bit_vector);
}

/// Decoding the little-endian image of a 64-bit value gives the value back.
pub proof fn lemma_le64_roundtrip(x: u64)
    ensures
        le64_val(le64_bytes(x)) == x,
{
    assert(((x & 0xff) as u8 as u64) | ((((x >> 8) & 0xff) as u8 as u64) << 8)
        | ((((x >> 16) & 0xff) as u8 as u64) << 16) | ((((x >> 24) & 0xff) as u8 as u64) << 24)
        | ((((x >> 32) & 0xff) as u8 as u64) << 32) | ((((x >> 40) & 0xff) as u8 as u64) << 40)
        | ((((x >> 48) & 0xff) as u8 as u64) << 48) | ((((x >> 56) & 0xff) as u8 as u64) << 56)
        == x) by (bit_vector);
}

/// Writes the two little-endian bytes of `x` at offset `at`.
pub fn put_le16(buf: &mut Vec<u8>, at: usize, x: u16)
    requires
        at + 2 <= old(buf).len(),
    ensures
        final(buf)@ == splice(old(buf)@, at as int, le16_bytes(x)),
{
    let b0: u8 = (x & 0xff) as u8;
    let b1: u8 = ((x >> 8) & 0xff) as u8;
    buf.set(at, b0);
    buf.set(at + 1, b1);
    assert(buf@ =~= splice(old(buf)@, at as int, le16_bytes(x)));
}

/// Writes the four little-endian bytes of `x` at offset `at`.
pub fn put_le32(buf: &mut Vec<u8>, at: usize, x: u32)
    requires
        at + 4 <= old(buf).len(),
    ensures
        final(buf)@ == splice(old(buf)@, at as int, le32_bytes(x)),
{
    let b0: u8 = (x & 0xff) as u8;
    let b1: u8 = ((x >> 8) & 0xff) as u8;
    let b2: u8 = ((x >> 16) & 0xff) as u8;
    let b3: u8 = ((x >> 24) & 0xff) as u8;
    buf.set(at, b0);
    buf.set(at + 1, b1);
    buf.set(at + 2, b2);
    buf.set(at + 3, b3);
    assert(buf@ =~= splice(old(buf)@, at as int, le32_bytes(x)));
}

/// Writes the eight little-endian bytes of `x` at offset `at`.
pub fn put_le64(buf: &mut Vec<u8>, at: usize, x: u64)
    requires
        at + 8 <= old(buf).len(),
    ensures
        final(buf)@ == splice(old(buf)@, at as int, le64_bytes(x)),
{
    let b0: u8 = (x & 0xff) as u8;
    let b1: u8 = ((x >> 8) & 0xff) as u8;
    let b2: u8 = ((x >> 16) & 0xff) as u8;
    let b3: u8 = ((x >> 24) & 0xff) as u8;
    let b4: u8 = ((x >> 32) & 0xff) as u8;
    let b5: u8 = ((x >> 40) & 0xff) as u8;
    let b6: u8 = ((x >> 48) & 0xff) as u8;
    let b7: u8 = ((x >> 56) & 0xff) as u8;
    buf.set(at, b0);
    buf.set(at + 1, b1);
    buf.set(at + 2, b2);
    buf.set(at + 3, b3);
    buf.set(at + 4, b4);
    buf.set(at + 5, b5);
    buf.set(at + 6, b6);
    buf.set(at + 7, b7);
    assert(buf@ =~= splice(old(buf)@, at as int, le64_bytes(x)));
}

/// Reads the 16-bit value whose little-endian bytes sit at offset `at`.
pub fn get_le16(buf: &Vec<u8>, at: usize) -> (r: u16)
    requires
        at + 2 <= buf.len(),
    ensures
        r == le16_val(buf@.subrange(at as int, at + 2)),
{
    let b0: u16 = buf[at] as u16;
    let b1: u16 = buf[at + 1] as u16;
    let r: u16 = b0 | (b1 << 8);
    proof {
        let s = buf@.subrange(at as int, at + 2);
        assert(s[0] == buf@[at as int] && s[1] == buf@[at + 1]);
    }
    r
}

/// Reads the 32-bit value whose little-endian bytes sit at offset `at`.
pub fn get_le32(buf: &Vec<u8>, at: usize) -> (r: u32)
    requires
        at + 4 <= buf.len(),
    ensures
        r == le32_val(buf@.subrange(at as int, at + 4)),
{
    let b0: u32 = buf[at] as u32;
    let b1: u32 = buf[at + 1] as u32;
    let b2: u32 = buf[at + 2] as u32;
    let b3: u32 = buf[at + 3] as u32;
    let r: u32 = b0 | (b1 << 8) | (b2 << 16) | (b3 << 24);
    proof {
        let s = buf@.subrange(at as int, at + 4);
        assert(s[0] == buf@[at as int] && s[1] == buf@[at + 1] && s[2] == buf@[at + 2]
            && s[3] == buf@[at + 3]);
    }
    r
}

/// Reads the 64-bit value whose little-endian bytes sit at offset `at`.
pub fn get_le64(buf: &Vec<u8>, at: usize) -> (r: u64)
    requires
        at + 8 <= buf.len(),
    ensures
        r == le64_val(buf@.subrange(at as int, at + 8)),
{
    let b0: u64 = buf[at] as u64;
    let b1: u64 = buf[at + 1] as u64;
    let b2: u64 = buf[at + 2] as u64;
    let b3: u64 = buf[at + 3] as u64;
    let b4: u64 = buf[at + 4] as u64;
    let b5: u64 = buf[at + 5] as u64;
    let b6: u64 = buf[at + 6] as u64;
    let b7: u64 = buf[at + 7] as u64;
    let r: u64 = b0 | (b1 << 8) | (b2 << 16) | (b3 << 24) | (b4 << 32) | (b5 << 40) | (b6 << 48)
        | (b7 << 56);
    proof {
        let s = buf@.subrange(at as int, at + 8);
        assert(s[0] == buf@[at as int] && s[1] == buf@[at + 1] && s[2] == buf@[at + 2]
            && s[3] == buf@[at + 3] && s[4] == buf@[at + 4] && s[5] == buf@[at + 5]
            && s[6] == buf@[at + 6] && s[7] == buf@[at + 7]);
    }
    r
}

/// Appends the two little-endian bytes of `x`.
pub fn push_le16(buf: &mut Vec<u8>, x: u16)
    ensures
        final(buf)@ == old(buf)@ + le16_bytes(x),
{
    let b0: u8 = (x & 0xff) as u8;
    let b1: u8 = ((x >> 8) & 0xff) as u8;
    buf.push(b0);
    buf.push(b1);
    assert(buf@ =~= old(buf)@ + le16_bytes(x));
}

/// Appends the four little-endian bytes of `x`.
pub fn push_le32(buf: &mut Vec<u8>, x: u32)
    ensures
        final(buf)@ == old(buf)@ + le32_bytes(x),
{
    let b0: u8 = (x & 0xff) as u8;
    let b1: u8 = ((x >> 8) & 0xff) as u8;
    let b2: u8 = ((x >> 16) & 0xff) as u8;
    let b3: u8 = ((x >> 24) & 0xff) as u8;
    buf.push(b0);
    buf.push(b1);
    buf.push(b2);
    buf.push(b3);
    assert(buf@ =~= old(buf)@ + le32_bytes(x));
}

/// Appends the eight little-endian bytes of `x`.
pub fn push_le64(buf: &mut Vec<u8>, x: u64)
    ensures
        final(buf)@ == old(buf)@ + le64_bytes(x),
{
    let b0: u8 = (x & 0xff) as u8;
    let b1: u8 = ((x >> 8) & 0xff) as u8;
    let b2: u8 = ((x >> 16) & 0xff) as u8;
    let b3: u8 = ((x >> 24) & 0xff) as u8;
    let b4: u8 = ((x >> 32) & 0xff) as u8;
    let b5: u8 = ((x >> 40) & 0xff) as u8;
    let b6: u8 = ((x >> 48) & 0xff) as u8;
    let b7: u8 = ((x >> 56) & 0xff) as u8;
    buf.push(b0);
    buf.push(b1);
    buf.push(b2);
    buf.push(b3);
    buf.push(b4);
    buf.push(b5);
    buf.push(b6);
    buf.push(b7);
    assert(buf@ =~= old(buf)@ + le64_bytes(x));
}

/// Copies all of `src` into `dst` at offset `at`.
pub fn copy_into(dst: &mut Vec<u8>, at: usize, src: &Vec<u8>)
    requires
        at + src.len() <= old(dst).len(),
    ensures
        final(dst)@ == splice(old(dst)@, at as int, src@),
{
    let n = src.len();
    let mut i: usize = 0;
    while i < n
        invariant
            i <= n,
            n == src.len(),
            at + n <= dst.len(),
            dst.len() == old(dst).len(),
            forall|j: int| 0 <= j < at ==> dst@[j] == old(dst)@[j],
            forall|j: int| at <= j < at + i ==> dst@[j] == src@[j - at],
            forall|j: int| at + i <= j < dst.len() ==> dst@[j] == old(dst)@[j],
        decreases n - i,
    {
        let b = src[i];
        dst.set(at + i, b);
        i = i + 1;
    }
    assert(dst@ =~= splice(old(dst)@, at as int, src@));
}

/// Copies the range `[from, from + len)` of `src` out into a fresh vector.
pub fn read_range(src: &Vec<u8>, from: usize, len: usize) -> (r: Vec<u8>)
    requires
        from + len <= src.len(),
    ensures
        r@ == src@.subrange(from as int, from + len),
{
    let mut r: Vec<u8> = Vec::new();
    let mut i: usize = 0;
    while i < len
        invariant
            i <= len,
            from + len <= src.len(),
            r@.len() == i,
            forall|j: int| 0 <= j < i ==> r@[j] == src@[from + j],
        decreases len - i,
    {
        let b = src[from + i];
        r.push(b);
        i = i + 1;
    }
    assert(r@ =~= src@.subrange(from as int, from + len));
    r
}

/// Overwrites the range `[at, at + len)` of `dst` with `fill`.
pub fn fill_range(dst: &mut Vec<u8>, at: usize, len: usize, fill: u8)
    requires
        at + len <= old(dst).len(),
    ensures
        final(dst)@.len() == old(dst).len(),
        forall|j: int| 0 <= j < at ==> final(dst)@[j] == old(dst)@[j],
        forall|j: int| at <= j < at + len ==> final(dst)@[j] == fill,
        forall|j: int| at + len <= j < old(dst).len() ==> final(dst)@[j] == old(dst)@[j],
{
    let mut i: usize = 0;
    while i < len
        invariant
            i <= len,
            at + len <= dst.len(),
            dst.len() == old(dst).len(),
            forall|j: int| 0 <= j < at ==> dst@[j] == old(dst)@[j],
            forall|j: int| at <= j < at + i ==> dst@[j] == fill,
            forall|j: int| at + i <= j < dst.len() ==> dst@[j] == old(dst)@[j],
        decreases len - i,
    {
        dst.set(at + i, fill);
        i = i + 1;
    }
}

/// A vector of `len` copies of `fill`.
pub fn make_filled(len: usize, fill: u8) -> (r: Vec<u8>)
    ensures
        r@.len() == len,
        forall|j: int| 0 <= j < len ==> r@[j] == fill,
{
    let mut r: Vec<u8> = Vec::new();
    let mut i: usize = 0;
    while i < len
        invariant
            i <= len,
            r@.len() == i,
            forall|j: int| 0 <= j < i ==> r@[j] == fill,
        decreases len - i,
    {
        r.push(fill);
        i = i + 1;
    }
    r
}

} // verus!
