//! The CIP object model: classes, their instances and the registry that
//! holds them.

use crate::text::{decimal, decimal_string};
use vstd::prelude::*;
use vstd::string::StringExecFns;

pub mod cip_class;
pub mod cip_error;
pub mod cip_identity;
pub mod registry;
pub mod tcp_ip_interface;

verus! {

/// The identifier of a class of objects.
#[derive(Debug, Clone, Copy)]
pub enum CipClassId {
    IdentityClassId,
    TcpIpInterfaceClassId,
    UserDefinedClassId(u16),
}

impl CipClassId {
    /// The 16-bit class id.
    pub open spec fn code(self) -> u16 {
        match self {
            CipClassId::IdentityClassId => 0x01,
            CipClassId::TcpIpInterfaceClassId => 0x02,
            CipClassId::UserDefinedClassId(id) => id,
        }
    }

    /// The class that a 16-bit id names.
    pub open spec fn from_code(id: u16) -> CipClassId {
        if id == 0x01 {
            CipClassId::IdentityClassId
        } else if id == 0x02 {
            CipClassId::TcpIpInterfaceClassId
        } else {
            CipClassId::UserDefinedClassId(id)
        }
    }

    /// How a class id reads in a message: its number, then what it names.
    pub open spec fn label(self) -> Seq<char> {
        match self {
            CipClassId::IdentityClassId => decimal(self.code() as nat) + ": Identity Class"@,
            CipClassId::TcpIpInterfaceClassId => decimal(self.code() as nat)
                + ": TCP/IP Interface Class"@,
            CipClassId::UserDefinedClassId(id) => decimal(id as nat) + ": User Defined Class"@,
        }
    }

    /// Every id names a class, so the result is never `None`.
    pub fn from_u16(id: u16) -> (r: Option<Self>)
        ensures
            r == Some(CipClassId::from_code(id)),
            CipClassId::from_code(id).code() == id,
    {
        match id {
            0x01 => Some(CipClassId::IdentityClassId),
            0x02 => Some(CipClassId::TcpIpInterfaceClassId),
            _ => Some(CipClassId::UserDefinedClassId(id)),
        }
    }

    /// The 16-bit id of the class.
    pub fn to_u16(&self) -> (r: u16)
        ensures
            r == self.code(),
    {
        match self {
            CipClassId::IdentityClassId => 0x01,
            CipClassId::TcpIpInterfaceClassId => 0x02,
            CipClassId::UserDefinedClassId(id) => *id,
        }
    }

    /// The class id as it reads in a message.
    pub fn describe(&self) -> (s: String)
        ensures
            s@ == self.label(),
    {
        let mut s = decimal_string(self.to_u16() as u64);
        match self {
            CipClassId::IdentityClassId => s.append(": Identity Class"),
            CipClassId::TcpIpInterfaceClassId => s.append(": TCP/IP Interface Class"),
            CipClassId::UserDefinedClassId(_) => s.append(": User Defined Class"),
        }
        s
    }
}

} // verus!
