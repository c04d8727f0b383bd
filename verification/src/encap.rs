//! The encapsulation protocol: frames, their codec and the dispatcher.

use crate::buf::{bytes_contents, bytes_len};
use crate::encap::error::{EncapsulationError, FrameError};
use crate::encap::header::EncapsulationHeader;
use bytes::Bytes;
use vstd::prelude::*;

pub mod broadcast_handler;
pub mod command;
pub mod cpf;
pub mod discovery_laws;
pub mod error;
pub mod handler;
pub mod header;
pub mod list_identity;

verus! {

/// The version of the encapsulation protocol that the device speaks.
pub const ENCAPSULATION_PROTOCOL_VERSION: u16 = 1;

/// A frame: a header and the payload that the header announces.
#[derive(Debug)]
pub struct Encapsulation {
    pub header: EncapsulationHeader,
    pub payload: Bytes,
}

/// What `length` bytes after the header `header` make: a frame, if the
/// header's length field says `length`, else the mismatch with both values.
pub open spec fn frame_check(header: EncapsulationHeader, length: nat) -> Option<FrameError> {
    if length == header.length {
        None
    } else {
        Some(FrameError::InvalidLength(header, length as usize))
    }
}

/// How a datagram fails to be a frame, if it does: it is shorter than a
/// header, or the bytes behind the header are not as many as the header says.
pub open spec fn frame_fault(datagram: Seq<u8>) -> Option<FrameError> {
    if datagram.len() < 24 {
        Some(FrameError::Incomplete(datagram.len() as usize))
    } else {
        frame_check(EncapsulationHeader::from_wire(datagram), (datagram.len() - 24) as nat)
    }
}

impl Encapsulation {
    /// The invariant of a frame: the payload is as long as the header says.
    pub open spec fn wf(&self) -> bool {
        bytes_contents(self.payload).len() == self.header.length
    }

    /// Checks the invariant: `None` for a frame whose payload is as long as
    /// its header says, the status `InvalidLength` for any other.
    pub fn validate_length(&self) -> (r: Option<EncapsulationError>)
        ensures
            r == if self.wf() {
                None
            } else {
                Some(EncapsulationError::InvalidLength)
            },
    {
        if bytes_len(&self.payload) != self.header.length as usize {
            Some(EncapsulationError::InvalidLength)
        } else {
            None
        }
    }

    /// Makes a frame of a header and a payload. It fails exactly when the
    /// payload's length is not the one in the header, and the error carries
    /// the header and the payload's length.
    pub fn new(header: EncapsulationHeader, payload: Bytes) -> (r: Result<Self, FrameError>)
        ensures
            match r {
                Ok(frame) => {
                    &&& frame_check(header, bytes_contents(payload).len()) is None
                    &&& frame.header == header
                    &&& frame.payload == payload
                    &&& frame.wf()
                },
                Err(e) => frame_check(header, bytes_contents(payload).len()) == Some(e),
            },
    {
        let payload_len: usize = bytes_len(&payload);
        if payload_len != header.length as usize {
            return Err(FrameError::InvalidLength(header, payload_len));
        }
        Ok(Self { header, payload })
    }

    /// Reads a frame from a datagram: the header from the first 24 bytes,
    /// the payload from all that follows.
    pub fn decode(in_buff: Bytes) -> (r: Result<Self, FrameError>)
        ensures
            match r {
                Ok(frame) => {
                    &&& frame_fault(bytes_contents(in_buff)) is None
                    &&& frame.header == EncapsulationHeader::from_wire(bytes_contents(in_buff))
                    &&& frame.header.is_valid()
                    &&& bytes_contents(frame.payload) == bytes_contents(in_buff).skip(24)
                    &&& frame.wf()
                },
                Err(e) => frame_fault(bytes_contents(in_buff)) == Some(e),
            },
    {
        let mut in_buff = in_buff;
        let header = match EncapsulationHeader::decode(&mut in_buff) {
            Ok(header) => header,
            Err(e) => {
                return Err(e);
            },
        };
        Self::new(header, in_buff)
    }
}

} // verus!
