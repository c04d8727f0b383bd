//! Contracts for the buffers of the `bytes` crate.
//!
//! `Bytes` and `BytesMut` are opaque to the verifier. What they hold is named
//! by `bytes_contents` and `bytes_mut_contents`; each function below makes one
//! call into the crate and states, without proof, what that call does to the
//! contents.

use crate::wire::{be16, le16, le16_value, le32, le32_value};
use bytes::{Buf, BufMut, Bytes, BytesMut};
use vstd::prelude::*;

verus! {

/// `bytes::Bytes`, made known to the verifier as a type of which it sees
/// nothing but what `bytes_contents` names.
#[verifier::external_type_specification]
#[verifier::external_body]
pub struct ExBytes(Bytes);

/// `bytes::BytesMut`, made known to the verifier as a type of which it sees
/// nothing but what `bytes_mut_contents` names.
#[verifier::external_type_specification]
#[verifier::external_body]
pub struct ExBytesMut(BytesMut);

/// The bytes that a `Bytes` value still holds, in reading order.
pub uninterp spec fn bytes_contents(b: Bytes) -> Seq<u8>;

/// The bytes written so far into a `BytesMut`, in writing order.
pub uninterp spec fn bytes_mut_contents(b: BytesMut) -> Seq<u8>;

/// `Bytes::len`: the number of bytes held.
#[verifier::external_body]
pub(crate) fn bytes_len(b: &Bytes) -> (n: usize)
    ensures
        n == bytes_contents(*b).len(),
{
    b.len()
}

/// `Buf::get_u16_le` on `Bytes`: takes the first two bytes off the front and
/// returns them as a little-endian integer. It panics on fewer than two bytes.
#[verifier::external_body]
pub(crate) fn bytes_get_u16_le(b: &mut Bytes) -> (v: u16)
    requires
        bytes_contents(*old(b)).len() >= 2,
    ensures
        v == le16_value(bytes_contents(*old(b))),
        bytes_contents(*final(b)) == bytes_contents(*old(b)).skip(2),
{
    b.get_u16_le()
}

/// `Buf::get_u32_le` on `Bytes`: takes the first four bytes off the front and
/// returns them as a little-endian integer. It panics on fewer than four bytes.
#[verifier::external_body]
pub(crate) fn bytes_get_u32_le(b: &mut Bytes) -> (v: u32)
    requires
        bytes_contents(*old(b)).len() >= 4,
    ensures
        v == le32_value(bytes_contents(*old(b))),
        bytes_contents(*final(b)) == bytes_contents(*old(b)).skip(4),
{
    b.get_u32_le()
}

/// `Buf::copy_to_slice` on `Bytes`, into an array of eight: moves the first
/// eight bytes into `dst`. It panics on fewer than eight bytes.
#[verifier::external_body]
pub(crate) fn bytes_copy_to_array8(b: &mut Bytes, dst: &mut [u8; 8])
    requires
        bytes_contents(*old(b)).len() >= 8,
    ensures
        final(dst)@ == bytes_contents(*old(b)).take(8),
        bytes_contents(*final(b)) == bytes_contents(*old(b)).skip(8),
{
    b.copy_to_slice(dst)
}

/// `BytesMut::with_capacity`: an empty buffer. The allocation fails above
/// `isize::MAX` bytes.
#[verifier::external_body]
pub(crate) fn bytes_mut_with_capacity(capacity: usize) -> (b: BytesMut)
    requires
        capacity <= isize::MAX,
    ensures
        bytes_mut_contents(b) == Seq::<u8>::empty(),
{
    BytesMut::with_capacity(capacity)
}

/// `BytesMut::len`: the number of bytes written.
#[verifier::external_body]
pub(crate) fn bytes_mut_len(b: &BytesMut) -> (n: usize)
    ensures
        n == bytes_mut_contents(*b).len(),
{
    b.len()
}

/// `BufMut::remaining_mut` on `BytesMut`: how far the buffer may still grow,
/// which is `isize::MAX` less its length.
#[verifier::external_body]
pub(crate) fn bytes_mut_remaining(b: &BytesMut) -> (n: usize)
    ensures
        n == isize::MAX - bytes_mut_contents(*b).len(),
{
    b.remaining_mut()
}

/// `BufMut::put_u8` on `BytesMut`: appends one byte.
#[verifier::external_body]
pub(crate) fn bytes_mut_put_u8(b: &mut BytesMut, v: u8)
    requires
        bytes_mut_contents(*old(b)).len() + 1 <= isize::MAX,
    ensures
        bytes_mut_contents(*final(b)) == bytes_mut_contents(*old(b)).push(v),
{
    b.put_u8(v)
}

/// `BufMut::put_u16` on `BytesMut`: appends two bytes, most significant first.
#[verifier::external_body]
pub(crate) fn bytes_mut_put_u16(b: &mut BytesMut, v: u16)
    requires
        bytes_mut_contents(*old(b)).len() + 2 <= isize::MAX,
    ensures
        bytes_mut_contents(*final(b)) == bytes_mut_contents(*old(b)) + be16(v),
{
    b.put_u16(v)
}

/// `BufMut::put_u16_le` on `BytesMut`: appends two bytes, least significant
/// first.
#[verifier::external_body]
pub(crate) fn bytes_mut_put_u16_le(b: &mut BytesMut, v: u16)
    requires
        bytes_mut_contents(*old(b)).len() + 2 <= isize::MAX,
    ensures
        bytes_mut_contents(*final(b)) == bytes_mut_contents(*old(b)) + le16(v),
{
    b.put_u16_le(v)
}

/// `BufMut::put_u32_le` on `BytesMut`: appends four bytes, least significant
/// first.
#[verifier::external_body]
pub(crate) fn bytes_mut_put_u32_le(b: &mut BytesMut, v: u32)
    requires
        bytes_mut_contents(*old(b)).len() + 4 <= isize::MAX,
    ensures
        bytes_mut_contents(*final(b)) == bytes_mut_contents(*old(b)) + le32(v),
{
    b.put_u32_le(v)
}

/// `BufMut::put_slice` on `BytesMut`: appends the bytes of `src`.
#[verifier::external_body]
pub(crate) fn bytes_mut_put_slice(b: &mut BytesMut, src: &[u8])
    requires
        bytes_mut_contents(*old(b)).len() + src@.len() <= isize::MAX,
    ensures
        bytes_mut_contents(*final(b)) == bytes_mut_contents(*old(b)) + src@,
{
    b.put_slice(src)
}

/// `BufMut::put_bytes` on `BytesMut`: appends `cnt` copies of `val`.
#[verifier::external_body]
pub(crate) fn bytes_mut_put_bytes(b: &mut BytesMut, val: u8, cnt: usize)
    requires
        bytes_mut_contents(*old(b)).len() + cnt <= isize::MAX,
    ensures
        bytes_mut_contents(*final(b)) == bytes_mut_contents(*old(b)) + Seq::new(
            cnt as nat,
            |i: int| val,
        ),
{
    b.put_bytes(val, cnt)
}

/// `BytesMut::truncate`: keeps the first `len` bytes; a `len` beyond the end
/// changes nothing.
#[verifier::external_body]
pub(crate) fn bytes_mut_truncate(b: &mut BytesMut, len: usize)
    ensures
        bytes_mut_contents(*final(b)) == if len <= bytes_mut_contents(*old(b)).len() {
            bytes_mut_contents(*old(b)).take(len as int)
        } else {
            bytes_mut_contents(*old(b))
        },
{
    b.truncate(len)
}

/// `AsMut<[u8]>` for `BytesMut`: the written bytes as a slice that can be
/// overwritten in place. The buffer holds whatever the slice holds when the
/// borrow ends.
#[verifier::external_body]
pub(crate) fn bytes_mut_as_slice(b: &mut BytesMut) -> (s: &mut [u8])
    ensures
        s@ == bytes_mut_contents(*old(b)),
        bytes_mut_contents(*final(b)) == final(s)@,
{
    b.as_mut()
}

/// `BytesMut::freeze`: the same bytes, read-only.
#[verifier::external_body]
pub(crate) fn bytes_mut_freeze(b: BytesMut) -> (r: Bytes)
    ensures
        bytes_contents(r) == bytes_mut_contents(b),
{
    b.freeze()
}

} // verus!
