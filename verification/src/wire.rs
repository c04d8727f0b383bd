//! Byte-order encodings of the integers that appear on the wire.

use vstd::prelude::*;

verus! {

/// The two bytes of `v`, least significant first.
pub open spec fn le16(v: u16) -> Seq<u8> {
    seq![(v % 256) as u8, (v / 256) as u8]
}

/// The two bytes of `v`, most significant first (network byte order).
pub open spec fn be16(v: u16) -> Seq<u8> {
    seq![(v / 256) as u8, (v % 256) as u8]
}

/// The four bytes of `v`, least significant first.
pub open spec fn le32(v: u32) -> Seq<u8> {
    seq![
        (v % 256) as u8,
        (v / 256 % 256) as u8,
        (v / 65536 % 256) as u8,
        (v / 16777216) as u8,
    ]
}

/// The integer whose little-endian bytes are `s[0]` and `s[1]`.
pub open spec fn le16_value(s: Seq<u8>) -> u16
    recommends
        s.len() >= 2,
{
    (s[0] as int + 256 * (s[1] as int)) as u16
}

/// The integer whose little-endian bytes are `s[0]` to `s[3]`.
pub open spec fn le32_value(s: Seq<u8>) -> u32
    recommends
        s.len() >= 4,
{
    (s[0] as int + 256 * (s[1] as int) + 65536 * (s[2] as int) + 16777216 * (s[3] as int)) as u32
}

/// `n` zero bytes.
pub open spec fn zeros(n: nat) -> Seq<u8> {
    Seq::new(n, |i: int| 0u8)
}

/// Reading back what `le16` wrote gives the integer again, whatever follows.
pub proof fn lemma_le16_roundtrip(v: u16, rest: Seq<u8>)
    ensures
        le16(v).len() == 2,
        le16_value(le16(v) + rest) == v,
{
    let s: Seq<u8> = le16(v) + rest;
    assert(s[0] == le16(v)[0]);
    assert(s[1] == le16(v)[1]);
}

/// Reading back what `le32` wrote gives the integer again, whatever follows.
pub proof fn lemma_le32_roundtrip(v: u32, rest: Seq<u8>)
    ensures
        le32(v).len() == 4,
        le32_value(le32(v) + rest) == v,
{
    let s: Seq<u8> = le32(v) + rest;
    assert(s[0] == le32(v)[0]);
    assert(s[1] == le32(v)[1]);
    assert(s[2] == le32(v)[2]);
    assert(s[3] == le32(v)[3]);
}

/// Writing the integer read from two bytes gives those bytes again.
pub proof fn lemma_le16_of_value(s: Seq<u8>)
    requires
        s.len() == 2,
    ensures
        le16(le16_value(s)) == s,
{
    assert(le16(le16_value(s)) =~= s);
}

/// The low byte of a 16-bit integer.
pub fn low_byte(v: u16) -> (b: u8)
    ensures
        b == le16(v)[0],
{
    (v % 256) as u8
}

/// The high byte of a 16-bit integer.
pub fn high_byte(v: u16) -> (b: u8)
    ensures
        b == le16(v)[1],
{
    (v / 256) as u8
}

/// The little-endian bytes of a 32-bit integer.
pub fn le32_bytes(v: u32) -> (b: [u8; 4])
    ensures
        b@ == le32(v),
{
    let b: [u8; 4] = [
        (v % 256) as u8,
        (v / 256 % 256) as u8,
        (v / 65536 % 256) as u8,
        (v / 16777216) as u8,
    ];
    assert(b@ =~= le32(v));
    b
}

} // verus!
