//! The three tiers of failure: frame, protocol and internal.

use crate::encap::header::EncapsulationHeader;
use crate::text::{decimal, decimal_string};
use vstd::prelude::*;
use vstd::string::StringExecFns;

verus! {

/// `std::io::Error`, made known to the verifier as a type of which it sees
/// nothing.
#[verifier::external_type_specification]
#[verifier::external_body]
pub struct ExIoError(std::io::Error);

/// A status of the encapsulation protocol, as carried in a reply header.
#[derive(Debug, Copy, Clone, PartialEq, Eq, Structural)]
pub enum EncapsulationError {
    Success,
    InvalidOrUnsupportedCommand,
    InsufficientMemory,
    IncorrectData,
    InvalidSessionHandle,
    InvalidLength,
    UnsupportedProtocol,
}

impl EncapsulationError {
    /// The 32-bit status code.
    pub open spec fn code(self) -> u32 {
        match self {
            EncapsulationError::Success => 0x0000,
            EncapsulationError::InvalidOrUnsupportedCommand => 0x0001,
            EncapsulationError::InsufficientMemory => 0x0002,
            EncapsulationError::IncorrectData => 0x0003,
            EncapsulationError::InvalidSessionHandle => 0x0064,
            EncapsulationError::InvalidLength => 0x0065,
            EncapsulationError::UnsupportedProtocol => 0x0069,
        }
    }

    /// The 32-bit status code.
    pub fn to_u32(self) -> (r: u32)
        ensures
            r == self.code(),
    {
        match self {
            EncapsulationError::Success => 0x0000,
            EncapsulationError::InvalidOrUnsupportedCommand => 0x0001,
            EncapsulationError::InsufficientMemory => 0x0002,
            EncapsulationError::IncorrectData => 0x0003,
            EncapsulationError::InvalidSessionHandle => 0x0064,
            EncapsulationError::InvalidLength => 0x0065,
            EncapsulationError::UnsupportedProtocol => 0x0069,
        }
    }

    /// The status in words.
    pub open spec fn text(self) -> Seq<char> {
        match self {
            EncapsulationError::Success => "Success"@,
            EncapsulationError::InvalidOrUnsupportedCommand => "Invalid or unsupported command"@,
            EncapsulationError::InsufficientMemory => "Insufficient memory"@,
            EncapsulationError::IncorrectData => "Incorrect data"@,
            EncapsulationError::InvalidSessionHandle => "Invalid session handle"@,
            EncapsulationError::InvalidLength => "Invalid length"@,
            EncapsulationError::UnsupportedProtocol => "Unsupported protocol"@,
        }
    }

    /// The status in words.
    pub fn message(&self) -> (s: String)
        ensures
            s@ == self.text(),
    {
        match self {
            EncapsulationError::Success => String::from_str("Success"),
            EncapsulationError::InvalidOrUnsupportedCommand => String::from_str(
                "Invalid or unsupported command",
            ),
            EncapsulationError::InsufficientMemory => String::from_str("Insufficient memory"),
            EncapsulationError::IncorrectData => String::from_str("Incorrect data"),
            EncapsulationError::InvalidSessionHandle => String::from_str("Invalid session handle"),
            EncapsulationError::InvalidLength => String::from_str("Invalid length"),
            EncapsulationError::UnsupportedProtocol => String::from_str("Unsupported protocol"),
        }
    }
}

/// Why bytes could not be taken as a frame.
#[derive(Debug, PartialEq)]
pub enum FrameError {
    /// Fewer bytes than a header; carries how many there were.
    Incomplete(usize),
    /// The header's length field and the payload disagree; carries the header
    /// and the payload's real length.
    InvalidLength(EncapsulationHeader, usize),
}

impl FrameError {
    /// The error in words, with the lengths in decimal.
    pub open spec fn text(self) -> Seq<char> {
        match self {
            FrameError::Incomplete(length) => "Incomplete frame, min expected: 24, got: "@
                + decimal(length as nat),
            FrameError::InvalidLength(header, payload_length) =>
                "Invalid length header length field: "@ + decimal(header.length as nat)
                    + ", payload length: "@ + decimal(payload_length as nat),
        }
    }

    /// The error in words.
    pub fn message(&self) -> (s: String)
        ensures
            s@ == self.text(),
    {
        match self {
            FrameError::Incomplete(length) => {
                let mut s = String::from_str("Incomplete frame, min expected: 24, got: ");
                s.append(decimal_string(*length as u64).as_str());
                s
            },
            FrameError::InvalidLength(header, payload_length) => {
                let mut s = String::from_str("Invalid length header length field: ");
                s.append(decimal_string(header.length as u64).as_str());
                s.append(", payload length: ");
                s.append(decimal_string(*payload_length as u64).as_str());
                s
            },
        }
    }
}

/// A fault on this side, never shown on the wire.
#[derive(Debug)]
pub enum InternalError {
    Io(std::io::Error),
    Other(String),
}

/// What stops a request: a protocol status to reply with, or an internal
/// fault to keep silent about.
#[derive(Debug)]
pub enum HandlerError {
    Protocol(EncapsulationError),
    Internal(InternalError),
}

impl InternalError {
    /// The error in words: what kind it is, then what it says. Of an I/O
    /// error only the opening words are fixed here.
    pub fn message(&self) -> (s: String)
        ensures
            match self {
                InternalError::Io(_) => "I/O error: "@.is_prefix_of(s@),
                InternalError::Other(msg) => s@ == "Other error: "@ + msg@,
            },
    {
        match self {
            InternalError::Io(err) => {
                let mut s = String::from_str("I/O error: ");
                s.append(err.to_string().as_str());
                s
            },
            InternalError::Other(msg) => {
                let mut s = String::from_str("Other error: ");
                s.append(msg.as_str());
                s
            },
        }
    }
}

impl HandlerError {
    /// The error in words: which tier it is of, then the error itself.
    pub fn message(&self) -> (s: String)
        ensures
            match self {
                HandlerError::Protocol(err) => s@ == "Protocol error: "@ + err.text(),
                HandlerError::Internal(InternalError::Other(msg)) => s@
                    == "Internal error: Other error: "@ + msg@,
                HandlerError::Internal(InternalError::Io(_)) => "Internal error: I/O error: "@.is_prefix_of(
                    s@,
                ),
            },
    {
        match self {
            HandlerError::Protocol(err) => {
                let mut s = String::from_str("Protocol error: ");
                s.append(err.message().as_str());
                s
            },
            HandlerError::Internal(err) => {
                let inner = err.message();
                let mut s = String::from_str("Internal error: ");
                s.append(inner.as_str());
                proof {
                    reveal_strlit("Internal error: ");
                    reveal_strlit("Other error: ");
                    reveal_strlit("I/O error: ");
                    reveal_strlit("Internal error: Other error: ");
                    reveal_strlit("Internal error: I/O error: ");
                    assert("Internal error: Other error: "@ =~= "Internal error: "@
                        + "Other error: "@);
                    assert("Internal error: I/O error: "@ =~= "Internal error: "@ + "I/O error: "@);
                    match err {
                        InternalError::Other(msg) => {
                            assert(s@ =~= "Internal error: Other error: "@ + msg@);
                        },
                        InternalError::Io(_) => {
                            let head = "I/O error: "@;
                            assert(head =~= inner@.subrange(0, head.len() as int));
                            assert("Internal error: I/O error: "@ =~= s@.subrange(
                                0,
                                "Internal error: I/O error: "@.len() as int,
                            ));
                        },
                    }
                }
                s
            },
        }
    }
}

impl From<std::io::Error> for InternalError {
    fn from(err: std::io::Error) -> (r: InternalError) {
        InternalError::Io(err)
    }
}

impl vstd::std_specs::convert::FromSpecImpl<std::io::Error> for InternalError {
    open spec fn obeys_from_spec() -> bool {
        true
    }

    open spec fn from_spec(err: std::io::Error) -> InternalError {
        InternalError::Io(err)
    }
}

impl From<String> for InternalError {
    fn from(err: String) -> (r: InternalError) {
        InternalError::Other(err)
    }
}

impl vstd::std_specs::convert::FromSpecImpl<String> for InternalError {
    open spec fn obeys_from_spec() -> bool {
        true
    }

    open spec fn from_spec(err: String) -> InternalError {
        InternalError::Other(err)
    }
}

impl From<EncapsulationError> for HandlerError {
    fn from(err: EncapsulationError) -> (r: HandlerError) {
        HandlerError::Protocol(err)
    }
}

impl vstd::std_specs::convert::FromSpecImpl<EncapsulationError> for HandlerError {
    open spec fn obeys_from_spec() -> bool {
        true
    }

    open spec fn from_spec(err: EncapsulationError) -> HandlerError {
        HandlerError::Protocol(err)
    }
}

impl From<InternalError> for HandlerError {
    fn from(err: InternalError) -> (r: HandlerError) {
        HandlerError::Internal(err)
    }
}

impl vstd::std_specs::convert::FromSpecImpl<InternalError> for HandlerError {
    open spec fn obeys_from_spec() -> bool {
        true
    }

    open spec fn from_spec(err: InternalError) -> HandlerError {
        HandlerError::Internal(err)
    }
}

/// `std::io::Error::new` with the kind `InvalidInput`: the error that says a
/// destination has too little room. Nothing is claimed of the value.
#[verifier::external_body]
pub(crate) fn insufficient_buffer_space() -> (e: std::io::Error) {
    std::io::Error::new(std::io::ErrorKind::InvalidInput, "Insufficient buffer space")
}

} // verus!
