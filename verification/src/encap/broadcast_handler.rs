//! The dispatcher for frames that came by UDP broadcast.

use crate::buf::{bytes_contents, bytes_len, bytes_mut_contents};
use crate::cip::registry::Registry;
use crate::encap::command::EncapsulationCommand;
use crate::encap::error::{EncapsulationError, HandlerError};
use crate::encap::handler::{
    alloc_response_buffer, dispatch_outcome, frame_outcome, handle_error_reply, handle_result,
    is_broadcast_command, is_reply, reply_bytes, reply_header, Outcome,
};
use crate::encap::list_identity::list_identity;
use crate::encap::Encapsulation;
use bytes::{Bytes, BytesMut};
use std::sync::Arc;
use vstd::prelude::*;

verus! {

/// Answers the frames of UDP discovery from a registry.
pub struct BroadcastHandler {
    registry: Arc<Registry>,
}

impl BroadcastHandler {
    /// The registry that the answers are drawn from.
    pub closed spec fn registry(&self) -> Registry {
        *self.registry
    }

    /// A handler that answers from `registry`.
    pub fn new(registry: Arc<Registry>) -> (r: Self)
        ensures
            r.registry() == *registry,
    {
        Self { registry }
    }

    /// Answers one frame. The reply, if there is one, is the reply header
    /// and the payload; the frame's own header becomes the reply header,
    /// its payload stays.
    pub fn handle(&self, encapsulation: &mut Encapsulation) -> (r: Option<Bytes>)
        ensures
            ({
                let outcome = frame_outcome(
                    self.registry(),
                    old(encapsulation).header.command,
                    bytes_contents(old(encapsulation).payload).len(),
                );
                &&& final(encapsulation).payload == old(encapsulation).payload
                &&& final(encapsulation).header == reply_header(old(encapsulation).header, outcome)
                &&& is_reply(r, reply_bytes(old(encapsulation).header, outcome))
            }),
    {
        if !self.is_valid_command(encapsulation.header.command) {
            return handle_error_reply(
                &mut encapsulation.header,
                EncapsulationError::InvalidOrUnsupportedCommand,
            );
        }
        self.handle_request(encapsulation)
    }

    /// Whether `command` is one that a broadcast frame may carry.
    pub fn is_valid_command(&self, command: EncapsulationCommand) -> (r: bool)
        ensures
            r == is_broadcast_command(command),
    {
        matches!(
            command,
            EncapsulationCommand::Nop
                | EncapsulationCommand::ListIdentity
                | EncapsulationCommand::ListInterfaces
                | EncapsulationCommand::ListServices
        )
    }

    /// Dispatches an admitted frame and turns the result into the reply.
    fn handle_request(&self, encapsulation: &mut Encapsulation) -> (r: Option<Bytes>)
        ensures
            ({
                let outcome = dispatch_outcome(
                    self.registry(),
                    old(encapsulation).header.command,
                    bytes_contents(old(encapsulation).payload).len(),
                );
                &&& final(encapsulation).payload == old(encapsulation).payload
                &&& final(encapsulation).header == reply_header(old(encapsulation).header, outcome)
                &&& is_reply(r, reply_bytes(old(encapsulation).header, outcome))
            }),
    {
        let mut out_buf = alloc_response_buffer();
        let result = self.dispatch(encapsulation, &mut out_buf);
        proof {
            let outcome = dispatch_outcome(
                self.registry(),
                encapsulation.header.command,
                bytes_contents(encapsulation.payload).len(),
            );
            if let Outcome::Payload(payload) = outcome {
                assert(bytes_mut_contents(out_buf).skip(24) =~= payload);
            }
        }
        handle_result(&mut encapsulation.header, result, out_buf)
    }

    /// Serves a command: writes the payload of the reply behind the place
    /// of the header, or says why there is none.
    fn dispatch(&self, encapsulation: &Encapsulation, out_buf: &mut BytesMut) -> (r: Result<
        (),
        HandlerError,
    >)
        requires
            bytes_mut_contents(*old(out_buf)).len() == 24,
        ensures
            match dispatch_outcome(
                self.registry(),
                encapsulation.header.command,
                bytes_contents(encapsulation.payload).len(),
            ) {
                Outcome::Payload(payload) => r is Ok && bytes_mut_contents(*final(out_buf))
                    == bytes_mut_contents(*old(out_buf)) + payload,
                Outcome::Status(status) => r == Err::<(), HandlerError>(
                    HandlerError::Protocol(status),
                ) && bytes_mut_contents(*final(out_buf)) == bytes_mut_contents(*old(out_buf)),
                Outcome::Silent => r matches Err(HandlerError::Internal(_)) && bytes_mut_contents(
                    *final(out_buf),
                ) == bytes_mut_contents(*old(out_buf)),
            },
    {
        match encapsulation.header.command {
            EncapsulationCommand::Nop => {
                assert(bytes_mut_contents(*out_buf) =~= bytes_mut_contents(*out_buf)
                    + Seq::<u8>::empty());
                Ok(())
            },
            EncapsulationCommand::ListIdentity => {
                if bytes_len(&encapsulation.payload) != 0 {
                    return Err(HandlerError::from(EncapsulationError::InvalidLength));
                }
                match list_identity(&self.registry, out_buf) {
                    Ok(()) => Ok(()),
                    Err(err) => Err(HandlerError::from(err)),
                }
            },
            _ => Err(HandlerError::from(EncapsulationError::InvalidOrUnsupportedCommand)),
        }
    }
}

} // verus!
