//! The fixed 24-byte header of an encapsulation frame.

use crate::buf::{
    bytes_contents, bytes_copy_to_array8, bytes_get_u16_le, bytes_get_u32_le, bytes_len,
    bytes_mut_contents, bytes_mut_freeze, bytes_mut_put_slice, bytes_mut_put_u16_le,
    bytes_mut_put_u32_le, bytes_mut_remaining, bytes_mut_with_capacity,
};
use crate::encap::command::EncapsulationCommand;
use crate::encap::error::{insufficient_buffer_space, EncapsulationError, FrameError};
use crate::wire::{high_byte, le16, le16_value, le32, le32_bytes, le32_value, low_byte};
use bytes::{Bytes, BytesMut};
use vstd::prelude::*;

verus! {

/// The length of a header in bytes.
pub const ENCAPSULATION_HEADER_SIZE: usize = 24;

/// The header of an encapsulation frame.
#[derive(Clone, Copy, Debug, PartialEq, Eq)]
pub struct EncapsulationHeader {
    pub command: EncapsulationCommand,
    pub length: u16,
    pub session_handle: u32,
    pub status: u32,
    pub context: [u8; 8],
    pub options: u32,
}

impl EncapsulationHeader {
    /// The 24 bytes of the header on the wire: command, length, session
    /// handle and status little-endian, the context as it is, then the
    /// options little-endian.
    #[verifier::opaque]
    pub open spec fn wire_bytes(self) -> Seq<u8> {
        le16(self.command.code()) + le16(self.length) + le32(self.session_handle) + le32(
            self.status,
        ) + self.context@ + le32(self.options)
    }

    /// The header that the first 24 bytes of `s` spell.
    #[verifier::opaque]
    pub open spec fn from_wire(s: Seq<u8>) -> EncapsulationHeader
        recommends
            s.len() >= 24,
    {
        EncapsulationHeader {
            command: EncapsulationCommand::from_code(le16_value(s)),
            length: le16_value(s.skip(2)),
            session_handle: le32_value(s.skip(4)),
            status: le32_value(s.skip(8)),
            context: [s[12], s[13], s[14], s[15], s[16], s[17], s[18], s[19]],
            options: le32_value(s.skip(20)),
        }
    }

    /// A header is valid when its command is canonical: then the wire bytes
    /// name this very header.
    pub open spec fn is_valid(self) -> bool {
        self.command.is_canonical()
    }

    /// The header of a reply to `self`: status and length are set anew, all
    /// else is echoed.
    pub open spec fn reply(self, status: u32, length: u16) -> EncapsulationHeader {
        EncapsulationHeader {
            command: self.command,
            length,
            session_handle: self.session_handle,
            status,
            context: self.context,
            options: self.options,
        }
    }

    /// Reads a header off the front of `in_buff`. With fewer than 24 bytes it
    /// fails and takes nothing; else it takes exactly 24 and leaves the rest.
    pub fn decode(in_buff: &mut Bytes) -> (r: Result<Self, FrameError>)
        ensures
            match r {
                Ok(h) => {
                    &&& bytes_contents(*old(in_buff)).len() >= 24
                    &&& h == Self::from_wire(bytes_contents(*old(in_buff)))
                    &&& h.is_valid()
                    &&& bytes_contents(*final(in_buff)) == bytes_contents(*old(in_buff)).skip(24)
                },
                Err(e) => {
                    &&& bytes_contents(*old(in_buff)).len() < 24
                    &&& e == FrameError::Incomplete(bytes_contents(*old(in_buff)).len() as usize)
                    &&& bytes_contents(*final(in_buff)) == bytes_contents(*old(in_buff))
                },
            },
    {
        let available: usize = bytes_len(in_buff);
        if available < ENCAPSULATION_HEADER_SIZE {
            return Err(FrameError::Incomplete(available));
        }
        let ghost s = bytes_contents(*in_buff);
        let command = EncapsulationCommand::from_u16(bytes_get_u16_le(in_buff));
        let length: u16 = bytes_get_u16_le(in_buff);
        let session_handle: u32 = bytes_get_u32_le(in_buff);
        let status: u32 = bytes_get_u32_le(in_buff);
        let mut context = [0u8;8];
        assert(bytes_contents(*in_buff) == s.skip(12));
        bytes_copy_to_array8(in_buff, &mut context);
        assert(bytes_contents(*in_buff) == s.skip(20));
        let options: u32 = bytes_get_u32_le(in_buff);
        assert(bytes_contents(*in_buff) == s.skip(24));
        let h = Self { command, length, session_handle, status, context, options };
        proof {
            reveal(EncapsulationHeader::from_wire);
            assert(s.skip(2).skip(2) == s.skip(4));
            assert(s.skip(4).skip(4) == s.skip(8));
            assert(s.skip(8).skip(4) == s.skip(12));
            assert(context@ == s.skip(12).take(8));
            assert(h.context =~= Self::from_wire(s).context);
        }
        Ok(h)
    }

    /// Appends the 24 header bytes to `out_buff`, or fails and writes nothing
    /// when the buffer cannot grow by that much.
    pub fn encode(&self, out_buff: &mut BytesMut) -> (r: Result<(), std::io::Error>)
        ensures
            r is Ok <==> bytes_mut_contents(*old(out_buff)).len() + 24 <= isize::MAX,
            r is Ok ==> bytes_mut_contents(*final(out_buff)) == bytes_mut_contents(*old(out_buff))
                + self.wire_bytes(),
            r is Err ==> bytes_mut_contents(*final(out_buff)) == bytes_mut_contents(
                *old(out_buff),
            ),
    {
        if bytes_mut_remaining(out_buff) < ENCAPSULATION_HEADER_SIZE {
            return Err(insufficient_buffer_space());
        }
        let ghost before = bytes_mut_contents(*out_buff);
        bytes_mut_put_u16_le(out_buff, self.command.to_u16());
        bytes_mut_put_u16_le(out_buff, self.length);
        bytes_mut_put_u32_le(out_buff, self.session_handle);
        bytes_mut_put_u32_le(out_buff, self.status);
        bytes_mut_put_slice(out_buff, self.context.as_slice());
        bytes_mut_put_u32_le(out_buff, self.options);
        proof {
            reveal(EncapsulationHeader::wire_bytes);
            assert(bytes_mut_contents(*out_buff) =~= before + self.wire_bytes());
        }
        Ok(())
    }

    /// The 24 header bytes as an array.
    pub fn to_bytes(&self) -> (b: [u8; 24])
        ensures
            b@ == self.wire_bytes(),
    {
        let c: u16 = self.command.to_u16();
        let sh: [u8; 4] = le32_bytes(self.session_handle);
        let st: [u8; 4] = le32_bytes(self.status);
        let op: [u8; 4] = le32_bytes(self.options);
        let x: &[u8; 8] = &self.context;
        let b: [u8; 24] = [
            low_byte(c),
            high_byte(c),
            low_byte(self.length),
            high_byte(self.length),
            sh[0],
            sh[1],
            sh[2],
            sh[3],
            st[0],
            st[1],
            st[2],
            st[3],
            x[0],
            x[1],
            x[2],
            x[3],
            x[4],
            x[5],
            x[6],
            x[7],
            op[0],
            op[1],
            op[2],
            op[3],
        ];
        proof {
            reveal(EncapsulationHeader::wire_bytes);
            assert(b@ =~= self.wire_bytes());
        }
        b
    }

    /// Writes the 24 header bytes over the front of `out`, or fails and
    /// writes nothing when `out` is shorter than that. What lies behind the
    /// header is left as it was.
    pub fn encode_to_slice(&self, out: &mut [u8]) -> (r: Result<(), std::io::Error>)
        ensures
            r is Ok <==> old(out)@.len() >= 24,
            r is Ok ==> final(out)@ == self.wire_bytes() + old(out)@.skip(24),
            r is Err ==> final(out)@ == old(out)@,
    {
        if out.len() < ENCAPSULATION_HEADER_SIZE {
            return Err(insufficient_buffer_space());
        }
        let b: [u8; 24] = self.to_bytes();
        let mut i: usize = 0;
        while i < 24
            invariant
                i <= 24,
                out@.len() == old(out)@.len(),
                out@.len() >= 24,
                b@ == self.wire_bytes(),
                forall|j: int| 0 <= j < i ==> out@[j] == b@[j],
                forall|j: int| i <= j < out@.len() ==> out@[j] == old(out)@[j],
            decreases 24 - i,
        {
            out[i] = b[i];
            i = i + 1;
        }
        assert(out@ =~= self.wire_bytes() + old(out)@.skip(24));
        Ok(())
    }

    /// The reply that carries only a status: the header echoed with that
    /// status and length 0, as 24 bytes.
    pub fn create_error_response(header: EncapsulationHeader, status: EncapsulationError) -> (r:
        Option<Bytes>)
        ensures
            r matches Some(b) && bytes_contents(b) == header.reply(status.code(), 0).wire_bytes(),
    {
        let mut header = header;
        header.status = status.to_u32();
        header.length = 0;
        let mut reply_buf = bytes_mut_with_capacity(ENCAPSULATION_HEADER_SIZE);
        match header.encode(&mut reply_buf) {
            Ok(()) => Some(bytes_mut_freeze(reply_buf)),
            Err(_) => None,
        }
    }
}

/// A valid header that is written and read back is the same header, and
/// reading takes exactly the 24 bytes written: what followed them is what
/// remains.
pub proof fn lemma_header_roundtrip(h: EncapsulationHeader, rest: Seq<u8>)
    requires
        h.is_valid(),
    ensures
        h.wire_bytes().len() == 24,
        EncapsulationHeader::from_wire(h.wire_bytes() + rest) == h,
        (h.wire_bytes() + rest).skip(24) == rest,
{
    reveal(EncapsulationHeader::wire_bytes);
    reveal(EncapsulationHeader::from_wire);
    let w = h.wire_bytes();
    let s = w + rest;
    assert(w.len() == 24);
    assert(s.skip(24) =~= rest);
    crate::wire::lemma_le16_roundtrip(h.command.code(), s.skip(2));
    assert(s =~= le16(h.command.code()) + s.skip(2));
    crate::wire::lemma_le16_roundtrip(h.length, s.skip(4));
    assert(s.skip(2) =~= le16(h.length) + s.skip(4));
    crate::wire::lemma_le32_roundtrip(h.session_handle, s.skip(8));
    assert(s.skip(4) =~= le32(h.session_handle) + s.skip(8));
    crate::wire::lemma_le32_roundtrip(h.status, s.skip(12));
    assert(s.skip(8) =~= le32(h.status) + s.skip(12));
    crate::wire::lemma_le32_roundtrip(h.options, s.skip(24));
    assert(s.skip(20) =~= le32(h.options) + s.skip(24));
    let d = EncapsulationHeader::from_wire(s);
    assert(d.context =~= h.context);
}

} // verus!
