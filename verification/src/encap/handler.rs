//! From the result of a request to the bytes of its reply.
//!
//! A request ends in one of three ways: with a payload, with a protocol
//! status, or in silence. `Outcome` names them; the functions of this file
//! turn a header and an outcome into the reply, and `EncapsulationHandler`
//! answers whole datagrams.

use crate::buf::{
    bytes_contents, bytes_mut_as_slice, bytes_mut_contents, bytes_mut_freeze, bytes_mut_len,
    bytes_mut_put_bytes, bytes_mut_truncate, bytes_mut_with_capacity,
};
use crate::cip::registry::Registry;
use crate::encap::broadcast_handler::BroadcastHandler;
use crate::encap::command::EncapsulationCommand;
use crate::encap::error::{EncapsulationError, FrameError, HandlerError};
use crate::encap::header::{EncapsulationHeader, ENCAPSULATION_HEADER_SIZE};
use crate::encap::list_identity::discovery_payload;
use crate::encap::Encapsulation;
use crate::wire::zeros;
use bytes::{Bytes, BytesMut};
use std::sync::Arc;
use vstd::prelude::*;

verus! {

/// How a request ends.
pub enum Outcome {
    /// No reply: the request cannot be framed, or a fault on this side is
    /// kept from the wire.
    Silent,
    /// A reply that carries this status and no payload.
    Status(EncapsulationError),
    /// A reply with the status `Success` and this payload.
    Payload(Seq<u8>),
}

/// The commands that a broadcast datagram may carry.
pub open spec fn is_broadcast_command(command: EncapsulationCommand) -> bool {
    ||| command is Nop
    ||| command is ListIdentity
    ||| command is ListInterfaces
    ||| command is ListServices
}

/// How an admitted command ends, for a payload of `payload_len` bytes.
/// `Nop` succeeds with nothing. `ListIdentity` takes no payload; it answers
/// with what the registry gives, and keeps silent when the registry lacks
/// the identity or the address, or the reply would be too large to allocate.
/// The other commands are not served.
pub open spec fn dispatch_outcome(
    registry: Registry,
    command: EncapsulationCommand,
    payload_len: nat,
) -> Outcome {
    match command {
        EncapsulationCommand::Nop => Outcome::Payload(Seq::<u8>::empty()),
        EncapsulationCommand::ListIdentity => if payload_len != 0 {
            Outcome::Status(EncapsulationError::InvalidLength)
        } else {
            match discovery_payload(registry) {
                Some(payload) => if 24 + payload.len() <= isize::MAX {
                    Outcome::Payload(payload)
                } else {
                    Outcome::Silent
                },
                None => Outcome::Silent,
            }
        },
        _ => Outcome::Status(EncapsulationError::InvalidOrUnsupportedCommand),
    }
}

/// How a frame ends: a command outside the allow-list is refused, an
/// admitted one is dispatched.
pub open spec fn frame_outcome(
    registry: Registry,
    command: EncapsulationCommand,
    payload_len: nat,
) -> Outcome {
    if !is_broadcast_command(command) {
        Outcome::Status(EncapsulationError::InvalidOrUnsupportedCommand)
    } else {
        dispatch_outcome(registry, command, payload_len)
    }
}

/// How a datagram ends: one shorter than a header in silence, one whose
/// length field is wrong with the status `InvalidLength`, any other as the
/// frame it holds.
pub open spec fn datagram_outcome(registry: Registry, datagram: Seq<u8>) -> Outcome {
    if datagram.len() < 24 {
        Outcome::Silent
    } else {
        let header = EncapsulationHeader::from_wire(datagram);
        if datagram.len() - 24 != header.length {
            Outcome::Status(EncapsulationError::InvalidLength)
        } else {
            frame_outcome(registry, header.command, (datagram.len() - 24) as nat)
        }
    }
}

/// The length field for a payload of `n` bytes. The field has 16 bits: a
/// longer payload wraps round.
pub open spec fn length16(n: nat) -> u16 {
    (n % 0x10000) as u16
}

/// The header of the reply to a request with the header `header`. Command,
/// session handle, context and options are echoed.
pub open spec fn reply_header(header: EncapsulationHeader, outcome: Outcome) -> EncapsulationHeader {
    match outcome {
        Outcome::Silent => header,
        Outcome::Status(status) => header.reply(status.code(), 0),
        Outcome::Payload(payload) => header.reply(
            EncapsulationError::Success.code(),
            length16(payload.len()),
        ),
    }
}

/// The bytes of the reply, if there is one: the reply header, then the
/// payload.
pub open spec fn reply_bytes(header: EncapsulationHeader, outcome: Outcome) -> Option<Seq<u8>> {
    match outcome {
        Outcome::Silent => None,
        Outcome::Status(_) => Some(reply_header(header, outcome).wire_bytes()),
        Outcome::Payload(payload) => Some(reply_header(header, outcome).wire_bytes() + payload),
    }
}

/// The reply to a datagram, if there is one.
pub open spec fn datagram_reply(registry: Registry, datagram: Seq<u8>) -> Option<Seq<u8>> {
    reply_bytes(EncapsulationHeader::from_wire(datagram), datagram_outcome(registry, datagram))
}

/// `reply` holds the bytes `expected`, or there is neither.
pub open spec fn is_reply(reply: Option<Bytes>, expected: Option<Seq<u8>>) -> bool {
    match reply {
        Some(b) => expected == Some(bytes_contents(b)),
        None => expected is None,
    }
}

/// A reply buffer: 24 zero bytes, the place of the header.
pub fn alloc_response_buffer() -> (buf: BytesMut)
    ensures
        bytes_mut_contents(buf) == zeros(24),
{
    let mut buf = bytes_mut_with_capacity(ENCAPSULATION_HEADER_SIZE);
    bytes_mut_put_bytes(&mut buf, 0, ENCAPSULATION_HEADER_SIZE);
    assert(bytes_mut_contents(buf) =~= zeros(24));
    buf
}

/// Turns the result of a request into its reply. `out_buf` holds the place
/// of the header and, behind it, the payload written so far. An internal
/// error ends in silence and leaves the header alone; a protocol error
/// drops the payload; success keeps it. The header becomes that of the
/// reply. On success the buffer must hold the place of the header.
pub fn handle_result(
    header: &mut EncapsulationHeader,
    result: Result<(), HandlerError>,
    out_buf: BytesMut,
) -> (r: Option<Bytes>)
    requires
        result is Ok ==> bytes_mut_contents(out_buf).len() >= 24,
    ensures
        ({
            let outcome = match result {
                Ok(()) => Outcome::Payload(bytes_mut_contents(out_buf).skip(24)),
                Err(HandlerError::Protocol(status)) => Outcome::Status(status),
                Err(HandlerError::Internal(_)) => Outcome::Silent,
            };
            &&& *final(header) == reply_header(*old(header), outcome)
            &&& is_reply(r, reply_bytes(*old(header), outcome))
        }),
{
    let mut out_buf = out_buf;
    match result {
        Err(err) => {
            if let HandlerError::Internal(_) = &err {
                return None;
            }
            update_header_on_error(header, err, &mut out_buf);
        },
        Ok(()) => {
            header.status = EncapsulationError::Success.to_u32();
            header.length = ((bytes_mut_len(&out_buf) - ENCAPSULATION_HEADER_SIZE) % 0x10000) as u16;
        },
    }
    finalize_response(header, out_buf)
}

/// Makes the header that of an error reply: a protocol error gives its
/// status, the length is 0, and the buffer keeps only the place of the
/// header.
pub fn update_header_on_error(
    header: &mut EncapsulationHeader,
    err: HandlerError,
    out_buf: &mut BytesMut,
)
    ensures
        *final(header) == old(header).reply(
            match err {
                HandlerError::Protocol(status) => status.code(),
                HandlerError::Internal(_) => old(header).status,
            },
            0,
        ),
        bytes_mut_contents(*final(out_buf)) == if bytes_mut_contents(*old(out_buf)).len() >= 24 {
            bytes_mut_contents(*old(out_buf)).take(24)
        } else {
            bytes_mut_contents(*old(out_buf))
        },
{
    if let HandlerError::Protocol(e) = err {
        header.status = e.to_u32();
    }
    header.length = 0;
    bytes_mut_truncate(out_buf, ENCAPSULATION_HEADER_SIZE);
}

/// Writes the header over the first 24 bytes of the buffer, which is first
/// filled up with zeros if it is shorter than that, and hands the buffer
/// out as the reply.
pub fn finalize_response(header: &mut EncapsulationHeader, out_buf: BytesMut) -> (r: Option<
    Bytes,
>)
    ensures
        *final(header) == *old(header),
        r matches Some(b) && bytes_contents(b) == old(header).wire_bytes() + (if bytes_mut_contents(
            out_buf,
        ).len() >= 24 {
            bytes_mut_contents(out_buf).skip(24)
        } else {
            Seq::<u8>::empty()
        }),
{
    let mut out_buf = out_buf;
    let len: usize = bytes_mut_len(&out_buf);
    if len < ENCAPSULATION_HEADER_SIZE {
        bytes_mut_put_bytes(&mut out_buf, 0, ENCAPSULATION_HEADER_SIZE - len);
    }
    assert(len < 24 ==> bytes_mut_contents(out_buf).skip(24) =~= Seq::<u8>::empty());
    let header_view = bytes_mut_as_slice(&mut out_buf);
    let encoded = header.encode_to_slice(header_view);
    match encoded {
        Ok(()) => Some(bytes_mut_freeze(out_buf)),
        Err(_) => None,
    }
}

/// The reply that carries the status `err` and no payload.
pub fn handle_error_reply(header: &mut EncapsulationHeader, err: EncapsulationError) -> (r:
    Option<Bytes>)
    ensures
        *final(header) == reply_header(*old(header), Outcome::Status(err)),
        is_reply(r, reply_bytes(*old(header), Outcome::Status(err))),
{
    let out_buf = alloc_response_buffer();
    handle_result(header, Err(HandlerError::from(err)), out_buf)
}

/// Answers the datagrams of UDP discovery.
pub struct EncapsulationHandler {
    broadcast: BroadcastHandler,
}

impl EncapsulationHandler {
    /// The registry that the answers are drawn from.
    pub closed spec fn registry(&self) -> Registry {
        self.broadcast.registry()
    }

    /// A handler that answers from `registry`.
    pub fn new(registry: Arc<Registry>) -> (r: Self)
        ensures
            r.registry() == *registry,
    {
        Self { broadcast: BroadcastHandler::new(registry) }
    }

    /// The reply to one datagram, or `None` where there is none to send.
    pub fn handle_udp_broadcast(&self, in_buff: Bytes) -> (r: Option<Bytes>)
        ensures
            is_reply(r, datagram_reply(self.registry(), bytes_contents(in_buff))),
    {
        let mut encapsulation = match Encapsulation::decode(in_buff) {
            Ok(encapsulation) => encapsulation,
            Err(FrameError::InvalidLength(header, _)) => {
                let mut header = header;
                return handle_error_reply(&mut header, EncapsulationError::InvalidLength);
            },
            Err(FrameError::Incomplete(_)) => {
                return None;
            },
        };
        if !self.is_valid_broadcast_command(encapsulation.header.command) {
            return handle_error_reply(
                &mut encapsulation.header,
                EncapsulationError::InvalidOrUnsupportedCommand,
            );
        }
        self.broadcast.handle(&mut encapsulation)
    }

    /// Whether `command` is one that a broadcast datagram may carry.
    pub fn is_valid_broadcast_command(&self, command: EncapsulationCommand) -> (r: bool)
        ensures
            r == is_broadcast_command(command),
    {
        matches!(
            command,
            EncapsulationCommand::Nop
                | EncapsulationCommand::ListIdentity
                | EncapsulationCommand::ListInterfaces
                | EncapsulationCommand::ListServices
        )
    }
}

} // verus!
