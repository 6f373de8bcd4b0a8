//! Little-endian integer fields read out of a byte buffer.
//!
//! The spec functions give each multi-byte field its mathematical value; the
//! executable readers are proved to return exactly that value. The `*_le_bytes`
//! spec functions run the other way, from a value to its four or eight bytes,
//! and exist so that laws about synthetic buffers can be stated and proved.

use vstd::prelude::*;

verus! {

/// The value of the four-byte little-endian field at `s[off..off + 4]`.
pub open spec fn le_u32_at(s: Seq<u8>, off: int) -> int {
    s[off] + s[off + 1] * 0x100 + s[off + 2] * 0x10000 + s[off + 3] * 0x1000000
}

/// The value of the eight-byte little-endian field at `s[off..off + 8]`.
pub open spec fn le_u64_at(s: Seq<u8>, off: int) -> int {
    s[off] + s[off + 1] * 0x100 + s[off + 2] * 0x10000 + s[off + 3] * 0x1000000
        + s[off + 4] * 0x1_0000_0000 + s[off + 5] * 0x100_0000_0000
        + s[off + 6] * 0x1_0000_0000_0000 + s[off + 7] * 0x100_0000_0000_0000
}

/// The four little-endian bytes of `v`.
pub open spec fn u32_le_bytes(v: u32) -> Seq<u8> {
    seq![
        (v & 0xff) as u8,
        ((v >> 8) & 0xff) as u8,
        ((v >> 16) & 0xff) as u8,
        ((v >> 24) & 0xff) as u8,
    ]
}

/// The eight little-endian bytes of `v`.
pub open spec fn u64_le_bytes(v: u64) -> Seq<u8> {
    seq![
        (v & 0xff) as u8,
        ((v >> 8) & 0xff) as u8,
        ((v >> 16) & 0xff) as u8,
        ((v >> 24) & 0xff) as u8,
        ((v >> 32) & 0xff) as u8,
        ((v >> 40) & 0xff) as u8,
        ((v >> 48) & 0xff) as u8,
        ((v >> 56) & 0xff) as u8,
    ]
}

/// A four-byte field decodes back to the value it was built from.
pub proof fn lemma_u32_le_bytes_round_trip(v: u32)
    ensures
        u32_le_bytes(v).len() == 4,
        le_u32_at(u32_le_bytes(v), 0) == v,
{
    assert(v & 0xff < 0x100 && (v >> 8) & 0xff < 0x100 && (v >> 16) & 0xff < 0x100
        && (v >> 24) & 0xff < 0x100) by (bit_vector);
    assert((v & 0xff) + ((v >> 8) & 0xff) * 0x100 + ((v >> 16) & 0xff) * 0x10000
        + ((v >> 24) & 0xff) * 0x1000000 == v) by (bit_vector);
}

/// An eight-byte field decodes back to the value it was built from.
pub proof fn lemma_u64_le_bytes_round_trip(v: u64)
    ensures
        u64_le_bytes(v).len() == 8,
        le_u64_at(u64_le_bytes(v), 0) == v,
{
    assert(v & 0xff < 0x100 && (v >> 8) & 0xff < 0x100 && (v >> 16) & 0xff < 0x100
        && (v >> 24) & 0xff < 0x100 && (v >> 32) & 0xff < 0x100 && (v >> 40) & 0xff < 0x100
        && (v >> 48) & 0xff < 0x100 && (v >> 56) & 0xff < 0x100) by (bit_vector);
    assert((v & 0xff) + ((v >> 8) & 0xff) * 0x100 + ((v >> 16) & 0xff) * 0x10000
        + ((v >> 24) & 0xff) * 0x1000000 + ((v >> 32) & 0xff) * 0x1_0000_0000
        + ((v >> 40) & 0xff) * 0x100_0000_0000 + ((v >> 48) & 0xff) * 0x1_0000_0000_0000
        + ((v >> 56) & 0xff) * 0x100_0000_0000_0000 == v) by (bit_vector);
}

/// Reading a four-byte field sees only its own four bytes: a buffer that holds
/// `u32_le_bytes(v)` at `off` decodes to `v` there.
pub proof fn lemma_le_u32_at_subrange(s: Seq<u8>, off: int, v: u32)
    requires
        0 <= off,
        off + 4 <= s.len(),
        s.subrange(off, off + 4) == u32_le_bytes(v),
    ensures
        le_u32_at(s, off) == v,
{
    assert forall|i: int| 0 <= i < 4 implies s[off + i] == u32_le_bytes(v)[i] by {
        assert(s.subrange(off, off + 4)[i] == s[off + i]);
    }
    lemma_u32_le_bytes_round_trip(v);
}

/// Reading an eight-byte field sees only its own eight bytes.
pub proof fn lemma_le_u64_at_subrange(s: Seq<u8>, off: int, v: u64)
    requires
        0 <= off,
        off + 8 <= s.len(),
        s.subrange(off, off + 8) == u64_le_bytes(v),
    ensures
        le_u64_at(s, off) == v,
{
    assert forall|i: int| 0 <= i < 8 implies s[off + i] == u64_le_bytes(v)[i] by {
        assert(s.subrange(off, off + 8)[i] == s[off + i]);
    }
    lemma_u64_le_bytes_round_trip(v);
}

/// Reads the four-byte little-endian field at `bytes[off..off + 4]`.
pub fn read_u32_le(bytes: &[u8], off: usize) -> (r: u32)
    requires
        off + 4 <= bytes@.len(),
    ensures
        r == le_u32_at(bytes@, off as int),
{
    let b0 = bytes[off] as u32;
    let b1 = bytes[off + 1] as u32;
    let b2 = bytes[off + 2] as u32;
    let b3 = bytes[off + 3] as u32;
    b0 + b1 * 0x100 + b2 * 0x10000 + b3 * 0x1000000
}

/// Reads the eight-byte little-endian field at `bytes[off..off + 8]`.
pub fn read_u64_le(bytes: &[u8], off: usize) -> (r: u64)
    requires
        off + 8 <= bytes@.len(),
    ensures
        r == le_u64_at(bytes@, off as int),
{
    let b0 = bytes[off] as u64;
    let b1 = bytes[off + 1] as u64;
    let b2 = bytes[off + 2] as u64;
    let b3 = bytes[off + 3] as u64;
    let b4 = bytes[off + 4] as u64;
    let b5 = bytes[off + 5] as u64;
    let b6 = bytes[off + 6] as u64;
    let b7 = bytes[off + 7] as u64;
    b0 + b1 * 0x100 + b2 * 0x10000 + b3 * 0x1000000 + b4 * 0x1_0000_0000 + b5 * 0x100_0000_0000
        + b6 * 0x1_0000_0000_0000 + b7 * 0x100_0000_0000_0000
}

/// Copies `bytes[off..off + n]` into an owned vector.
pub fn read_bytes(bytes: &[u8], off: usize, n: usize) -> (r: Vec<u8>)
    requires
        off + n <= bytes@.len(),
    ensures
        r@ == bytes@.subrange(off as int, off + n),
{
    let len = bytes.len();
    let mut r: Vec<u8> = Vec::new();
    let mut i: usize = 0;
    while i < n
        invariant
            i <= n,
            off + n <= len,
            len == bytes@.len(),
            r@ == bytes@.subrange(off as int, off + i),
        decreases n - i,
    {
        r.push(bytes[off + i]);
        i = i + 1;
    }
    r
}

} // verus!
