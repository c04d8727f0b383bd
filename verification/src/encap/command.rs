//! The command field of an encapsulation header.

use vstd::prelude::*;

verus! {

/// A command of the encapsulation protocol. A code that names no known
/// command is kept as it came, in `Unknown`.
#[derive(Debug, Copy, Clone, PartialEq, Eq, Structural)]
pub enum EncapsulationCommand {
    Nop,
    ListServices,
    ListIdentity,
    ListInterfaces,
    RegisterSession,
    UnregisterSession,
    SendRRData,
    SendUnitData,
    Unknown(u16),
}

impl EncapsulationCommand {
    /// The command that a 16-bit code stands for.
    pub open spec fn from_code(v: u16) -> EncapsulationCommand {
        if v == 0x0000 {
            EncapsulationCommand::Nop
        } else if v == 0x0004 {
            EncapsulationCommand::ListServices
        } else if v == 0x0063 {
            EncapsulationCommand::ListIdentity
        } else if v == 0x0064 {
            EncapsulationCommand::ListInterfaces
        } else if v == 0x0065 {
            EncapsulationCommand::RegisterSession
        } else if v == 0x0066 {
            EncapsulationCommand::UnregisterSession
        } else if v == 0x006F {
            EncapsulationCommand::SendRRData
        } else if v == 0x0070 {
            EncapsulationCommand::SendUnitData
        } else {
            EncapsulationCommand::Unknown(v)
        }
    }

    /// The 16-bit code of a command.
    pub open spec fn code(self) -> u16 {
        match self {
            EncapsulationCommand::Nop => 0x0000,
            EncapsulationCommand::ListServices => 0x0004,
            EncapsulationCommand::ListIdentity => 0x0063,
            EncapsulationCommand::ListInterfaces => 0x0064,
            EncapsulationCommand::RegisterSession => 0x0065,
            EncapsulationCommand::UnregisterSession => 0x0066,
            EncapsulationCommand::SendRRData => 0x006F,
            EncapsulationCommand::SendUnitData => 0x0070,
            EncapsulationCommand::Unknown(cmd) => cmd,
        }
    }

    /// A command is canonical when it is the one that its own code stands
    /// for: every named command is, and `Unknown(c)` is unless `c` is the
    /// code of a named command.
    pub open spec fn is_canonical(self) -> bool {
        EncapsulationCommand::from_code(self.code()) == self
    }

    /// The command that the code `v` stands for; a code without a name
    /// is kept in `Unknown`.
    pub fn from_u16(v: u16) -> (r: Self)
        ensures
            r == EncapsulationCommand::from_code(v),
            r.is_canonical(),
            r.code() == v,
    {
        match v {
            0x0000 => EncapsulationCommand::Nop,
            0x0004 => EncapsulationCommand::ListServices,
            0x0063 => EncapsulationCommand::ListIdentity,
            0x0064 => EncapsulationCommand::ListInterfaces,
            0x0065 => EncapsulationCommand::RegisterSession,
            0x0066 => EncapsulationCommand::UnregisterSession,
            0x006F => EncapsulationCommand::SendRRData,
            0x0070 => EncapsulationCommand::SendUnitData,
            other => EncapsulationCommand::Unknown(other),
        }
    }

    /// The 16-bit code of the command.
    pub fn to_u16(&self) -> (r: u16)
        ensures
            r == self.code(),
    {
        match self {
            EncapsulationCommand::Nop => 0x0000,
            EncapsulationCommand::ListServices => 0x0004,
            EncapsulationCommand::ListIdentity => 0x0063,
            EncapsulationCommand::ListInterfaces => 0x0064,
            EncapsulationCommand::RegisterSession => 0x0065,
            EncapsulationCommand::UnregisterSession => 0x0066,
            EncapsulationCommand::SendRRData => 0x006F,
            EncapsulationCommand::SendUnitData => 0x0070,
            EncapsulationCommand::Unknown(cmd) => *cmd,
        }
    }
}

/// Every code survives the trip through a command and back, and the command
/// that a code gives is canonical.
pub proof fn lemma_code_roundtrip(v: u16)
    ensures
        EncapsulationCommand::from_code(v).code() == v,
        EncapsulationCommand::from_code(v).is_canonical(),
{
}

} // verus!
