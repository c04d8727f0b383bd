//! UDP discovery: from a datagram that came in to the datagram, if any, that
//! goes back to its sender.

use crate::buf::{bytes_contents, bytes_mut_contents, bytes_mut_freeze, bytes_mut_len};
use crate::encap::broadcast_handler::BroadcastHandler;
use crate::encap::error::{EncapsulationError, FrameError};
use crate::encap::handler::{datagram_reply, is_reply};
use crate::encap::header::{EncapsulationHeader, ENCAPSULATION_HEADER_SIZE};
use crate::encap::Encapsulation;
use bytes::{Bytes, BytesMut};
use vstd::prelude::*;

verus! {

/// The largest datagram that is received.
pub const MAX_UDP_DATAGRAM_SIZE: usize = 2048;

/// The reply to one datagram, or `None` where nothing is sent back. A
/// datagram shorter than a header is dropped; one whose length field does
/// not fit its payload is answered with the status `InvalidLength`; any
/// other is handed to `handler` as a frame.
pub fn handle_datagram(handler: &BroadcastHandler, data_buf: BytesMut) -> (r: Option<Bytes>)
    ensures
        is_reply(r, datagram_reply(handler.registry(), bytes_mut_contents(data_buf))),
{
    if bytes_mut_len(&data_buf) < ENCAPSULATION_HEADER_SIZE {
        return None;
    }
    let mut encapsulation = match Encapsulation::decode(bytes_mut_freeze(data_buf)) {
        Ok(encapsulation) => encapsulation,
        Err(FrameError::InvalidLength(header, _)) => {
            return EncapsulationHeader::create_error_response(
                header,
                EncapsulationError::InvalidLength,
            );
        },
        Err(FrameError::Incomplete(_)) => {
            return None;
        },
    };
    handler.handle(&mut encapsulation)
}

/// What the receive loop meets: a datagram, a receive that failed, or the
/// signal to shut down.
#[derive(Debug)]
pub enum TransportEvent {
    Datagram(BytesMut),
    ReceiveFailed,
    Shutdown,
}

/// What the receive loop does next: send a reply to where the datagram
/// came from, go on receiving, or stop.
#[derive(Debug)]
pub enum TransportAction {
    Reply(Bytes),
    Continue,
    Stop,
}

/// The next step of the receive loop. Only the shutdown signal stops it: a
/// receive that failed, and a datagram that gets no reply, leave it
/// running; a datagram that gets a reply has it sent.
pub fn next_action(handler: &BroadcastHandler, event: TransportEvent) -> (action: TransportAction)
    ensures
        match event {
            TransportEvent::Shutdown => action is Stop,
            TransportEvent::ReceiveFailed => action is Continue,
            TransportEvent::Datagram(data_buf) => match datagram_reply(
                handler.registry(),
                bytes_mut_contents(data_buf),
            ) {
                Some(reply) => action matches TransportAction::Reply(b) && bytes_contents(b)
                    == reply,
                None => action is Continue,
            },
        },
{
    match event {
        TransportEvent::Shutdown => TransportAction::Stop,
        TransportEvent::ReceiveFailed => TransportAction::Continue,
        TransportEvent::Datagram(data_buf) => match handle_datagram(handler, data_buf) {
            Some(reply) => TransportAction::Reply(reply),
            None => TransportAction::Continue,
        },
    }
}

} // verus!
