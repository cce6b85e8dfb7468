//! Little-endian views of 64-bit words and byte-surgery on them: the units
//! the kernel's per-word peek/poke interface traffics in.
use vstd::prelude::*;

verus! {

/// Byte `i` (little-endian) of `v`.
pub open spec fn u64_byte(v: u64, i: int) -> u8 {
    ((v >> (8 * i)) & 0xff) as u8
}

/// The eight little-endian bytes of `v`.
pub open spec fn u64_le(v: u64) -> Seq<u8> {
    Seq::new(8, |i: int| u64_byte(v, i))
}

/// The word whose little-endian bytes are `s` (first eight entries).
pub open spec fn le_to_u64(s: Seq<u8>) -> u64
    recommends
        s.len() >= 8,
{
    (s[0] as u64) | ((s[1] as u64) << 8) | ((s[2] as u64) << 16) | ((s[3] as u64) << 24) | (
    (s[4] as u64) << 32) | ((s[5] as u64) << 40) | ((s[6] as u64) << 48) | ((s[7] as u64) << 56)
}

/// Encoding a word and decoding the bytes gives the word back.
pub proof fn lemma_le_decode_encode(v: u64)
    ensures
        le_to_u64(u64_le(v)) == v,
{
    assert(((((v >> 0) & 0xff) as u8) as u64) | (((((v >> 8) & 0xff) as u8) as u64) << 8) | (((((v
        >> 16) & 0xff) as u8) as u64) << 16) | (((((v >> 24) & 0xff) as u8) as u64) << 24) | (((((v
        >> 32) & 0xff) as u8) as u64) << 32) | (((((v >> 40) & 0xff) as u8) as u64) << 40) | (((((v
        >> 48) & 0xff) as u8) as u64) << 48) | (((((v >> 56) & 0xff) as u8) as u64) << 56) == v)
        by (bit_vector);
    assert(u64_le(v)[0] == ((v >> 0) & 0xff) as u8);
}

/// Decoding eight bytes and encoding the word gives the bytes back.
pub proof fn lemma_le_encode_decode(s: Seq<u8>)
    requires
        s.len() == 8,
    ensures
        u64_le(le_to_u64(s)) =~= s,
{
    let b0 = s[0];
    let b1 = s[1];
    let b2 = s[2];
    let b3 = s[3];
    let b4 = s[4];
    let b5 = s[5];
    let b6 = s[6];
    let b7 = s[7];
    let v = (b0 as u64) | ((b1 as u64) << 8) | ((b2 as u64) << 16) | ((b3 as u64) << 24) | ((
    b4 as u64) << 32) | ((b5 as u64) << 40) | ((b6 as u64) << 48) | ((b7 as u64) << 56);
    assert(((v >> 0) & 0xff) as u8 == b0 && ((v >> 8) & 0xff) as u8 == b1 && ((v >> 16)
        & 0xff) as u8 == b2 && ((v >> 24) & 0xff) as u8 == b3 && ((v >> 32) & 0xff) as u8 == b4 && (
    (v >> 40) & 0xff) as u8 == b5 && ((v >> 48) & 0xff) as u8 == b6 && ((v >> 56) & 0xff) as u8
        == b7) by (bit_vector)
        requires
            v == (b0 as u64) | ((b1 as u64) << 8) | ((b2 as u64) << 16) | ((b3 as u64) << 24) | ((
            b4 as u64) << 32) | ((b5 as u64) << 40) | ((b6 as u64) << 48) | ((b7 as u64) << 56),
    ;
}

/// Read the word whose little-endian bytes sit at `bytes[start..start + 8]`.
pub fn word_from_bytes(bytes: &Vec<u8>, start: usize) -> (r: u64)
    requires
        start + 8 <= bytes@.len(),
    ensures
        r == le_to_u64(bytes@.subrange(start as int, start + 8)),
        u64_le(r) =~= bytes@.subrange(start as int, start + 8),
{
    let n: usize = bytes.len();
    let r = (bytes[start] as u64) | ((bytes[start + 1] as u64) << 8) | ((bytes[start + 2]
        as u64) << 16) | ((bytes[start + 3] as u64) << 24) | ((bytes[start + 4] as u64) << 32) | ((
    bytes[start + 5] as u64) << 40) | ((bytes[start + 6] as u64) << 48) | ((bytes[start + 7]
        as u64) << 56);
    proof {
        let s = bytes@.subrange(start as int, start + 8);
        assert(s[0] == bytes@[start as int]);
        lemma_le_encode_decode(s);
    }
    r
}

/// The eight little-endian bytes of `v`, as a vector.
pub fn word_to_bytes(v: u64) -> (r: Vec<u8>)
    ensures
        r@ =~= u64_le(v),
{
    let mut r: Vec<u8> = Vec::new();
    r.push((v & 0xff) as u8);
    r.push(((v >> 8) & 0xff) as u8);
    r.push(((v >> 16) & 0xff) as u8);
    r.push(((v >> 24) & 0xff) as u8);
    r.push(((v >> 32) & 0xff) as u8);
    r.push(((v >> 40) & 0xff) as u8);
    r.push(((v >> 48) & 0xff) as u8);
    r.push(((v >> 56) & 0xff) as u8);
    proof {
        assert(v & 0xff == (v >> 0) & 0xff) by (bit_vector);
    }
    r
}

/// The little-endian 16-bit value at `m[off..off + 2]`.
pub open spec fn u16_at(m: Seq<u8>, off: int) -> u16 {
    (m[off] as u16) | ((m[off + 1] as u16) << 8)
}

/// The little-endian 32-bit value at `m[off..off + 4]`.
pub open spec fn u32_at(m: Seq<u8>, off: int) -> u32 {
    (m[off] as u32) | ((m[off + 1] as u32) << 8) | ((m[off + 2] as u32) << 16) | ((m[off
        + 3] as u32) << 24)
}

/// The little-endian 64-bit value at `m[off..off + 8]`.
pub open spec fn u64_at(m: Seq<u8>, off: int) -> u64 {
    le_to_u64(m.subrange(off, off + 8))
}

/// The two little-endian bytes of `v`, as a vector.
pub fn u16_to_bytes(v: u16) -> (r: Vec<u8>)
    ensures
        r@.len() == 2,
        u16_at(r@, 0) == v,
        r@[0] == (v & 0xff) as u8,
        r@[1] == ((v >> 8) & 0xff) as u8,
{
    let mut r: Vec<u8> = Vec::new();
    r.push((v & 0xff) as u8);
    r.push(((v >> 8) & 0xff) as u8);
    proof {
        assert((((v & 0xff) as u8) as u16) | (((((v >> 8) & 0xff) as u8) as u16) << 8) == v)
            by (bit_vector);
    }
    r
}

/// The four little-endian bytes of `v`, as a vector.
pub fn u32_to_bytes(v: u32) -> (r: Vec<u8>)
    ensures
        r@.len() == 4,
        u32_at(r@, 0) == v,
{
    let mut r: Vec<u8> = Vec::new();
    r.push((v & 0xff) as u8);
    r.push(((v >> 8) & 0xff) as u8);
    r.push(((v >> 16) & 0xff) as u8);
    r.push(((v >> 24) & 0xff) as u8);
    proof {
        assert((((v & 0xff) as u8) as u32) | (((((v >> 8) & 0xff) as u8) as u32) << 8) | (((((v
            >> 16) & 0xff) as u8) as u32) << 16) | (((((v >> 24) & 0xff) as u8) as u32) << 24) == v)
            by (bit_vector);
    }
    r
}

/// Replace byte `i` of `w` with `b`, leaving the other seven bytes alone.
pub fn set_word_byte(w: u64, i: usize, b: u8) -> (r: u64)
    requires
        i < 8,
    ensures
        u64_byte(r, i as int) == b,
        forall|j: int| 0 <= j < 8 && j != i ==> u64_byte(r, j) == u64_byte(w, j),
{
    let sh: u64 = 8 * (i as u64);
    let r = (w & !(0xffu64 << sh)) | ((b as u64) << sh);
    proof {
        let iv = i as u64;
        assert(((((w & !(0xffu64 << (8 * iv))) | ((b as u64) << (8 * iv))) >> (8 * iv))
            & 0xff) as u8 == b) by (bit_vector)
            requires
                iv < 8,
        ;
        assert forall|j: int| 0 <= j < 8 && j != i implies u64_byte(r, j) == u64_byte(w, j) by {
            let jv = j as u64;
            assert((((((w & !(0xffu64 << (8 * iv))) | ((b as u64) << (8 * iv))) >> (8 * jv))
                & 0xff) as u8) == (((w >> (8 * jv)) & 0xff) as u8)) by (bit_vector)
                requires
                    iv < 8,
                    jv < 8,
                    iv != jv,
            ;
        }
    }
    r
}

/// Compose the word for a short final write: `rem` bytes of `data` starting
/// at `idx` overlay the front of the eight `existing` bytes, so the bytes
/// past the tail survive the 8-byte poke untouched.
pub fn compose_tail_word(existing: &Vec<u8>, data: &Vec<u8>, idx: usize, rem: usize) -> (w: u64)
    requires
        existing@.len() >= 8,
        idx + rem <= data@.len(),
        rem <= 8,
    ensures
        forall|i: int| 0 <= i < rem ==> u64_byte(w, i) == data@[idx + i],
        forall|i: int| rem <= i < 8 ==> u64_byte(w, i) == existing@[i],
{
    let mut w = word_from_bytes(existing, 0);
    proof {
        assert(forall|i: int| 0 <= i < 8 ==> u64_le(w)[i] == existing@.subrange(0, 8)[i]);
    }
    let dn: usize = data.len();
    let mut i: usize = 0;
    while i < rem
        invariant
            i <= rem,
            rem <= 8,
            dn == data@.len(),
            idx + rem <= dn,
            existing@.len() >= 8,
            forall|j: int| 0 <= j < i ==> u64_byte(w, j) == data@[idx + j],
            forall|j: int| i <= j < 8 ==> u64_byte(w, j) == existing@[j],
        decreases rem - i,
    {
        w = set_word_byte(w, i, data[idx + i]);
        i = i + 1;
    }
    w
}

} // verus!
