//! The TCP/IP Interface object: one instance for each local address.

use crate::cip::cip_class::{CipClass, CipInstance, CipInstanceHandle};
use crate::cip::cip_error::CipError;
use crate::cip::CipClassId;
use vstd::prelude::*;

verus! {

/// The address family of IPv4.
pub const AF_INET: u16 = 2;

/// The port reserved for the protocol, 44818.
pub const EIP_RESERVED_PORT: u16 = 0xAF12;

/// An IPv4 address of the device, seen as a socket address: family, port,
/// the four address bytes and eight bytes of padding.
#[derive(Debug)]
pub struct TcpIpInterfaceInstance {
    class: u16,
    address: [u8; 4],
}

impl TcpIpInterfaceInstance {
    /// The four bytes of the address, first byte first.
    pub closed spec fn octets(&self) -> [u8; 4] {
        self.address
    }

    /// An instance of the class with the id `class`, for the address whose
    /// bytes are `address`.
    pub fn new(class: u16, address: [u8; 4]) -> (r: Self)
        ensures
            r.owner() == class,
            r.octets() == address,
    {
        Self { class, address }
    }

    /// The address family: always IPv4.
    pub fn sin_family(&self) -> (r: u16)
        ensures
            r == AF_INET,
    {
        AF_INET
    }

    /// The four bytes of the address, first byte first.
    pub fn sin_addr(&self) -> (r: [u8; 4])
        ensures
            r == self.octets(),
    {
        self.address
    }

    /// The port: always the reserved one.
    pub fn sin_port(&self) -> (r: u16)
        ensures
            r == EIP_RESERVED_PORT,
    {
        EIP_RESERVED_PORT
    }

    /// The padding: eight zero bytes.
    pub fn sin_zero(&self) -> (r: [u8; 8])
        ensures
            r@ == Seq::new(8, |i: int| 0u8),
    {
        let r: [u8; 8] = [0, 0, 0, 0, 0, 0, 0, 0];
        assert(r@ =~= Seq::new(8, |i: int| 0u8));
        r
    }
}

impl CipInstance for TcpIpInterfaceInstance {
    closed spec fn owner(&self) -> u16 {
        self.class
    }

    open spec fn recovered(handle: CipInstanceHandle) -> Option<Self> {
        match handle {
            CipInstanceHandle::TcpIpInterface(i) => Some(i),
            _ => None,
        }
    }

    fn class(&self) -> (r: u16) {
        self.class
    }

    fn downcast(handle: &CipInstanceHandle) -> (r: Option<&Self>) {
        match handle {
            CipInstanceHandle::TcpIpInterface(i) => Some(i),
            _ => None,
        }
    }

    fn into_handle(self) -> (h: CipInstanceHandle) {
        CipInstanceHandle::TcpIpInterface(self)
    }
}

/// The TCP/IP Interface class. Its instances are kept in the order in which
/// they were added and never leave: the first added has the instance id 1.
#[derive(Debug)]
pub struct TcpIpInterfaceClass {
    class_id: u16,
    class_name: &'static str,
    instances: Vec<CipInstanceHandle>,
}

impl TcpIpInterfaceClass {
    /// The class without instances.
    pub fn new() -> (r: Self)
        ensures
            r.id() == CipClassId::TcpIpInterfaceClassId.code(),
            r.name() == "TcpIpInterfaceClass"@,
            r.instances() == Seq::<CipInstanceHandle>::empty(),
    {
        Self {
            class_id: CipClassId::TcpIpInterfaceClassId.to_u16(),
            class_name: "TcpIpInterfaceClass",
            instances: Vec::with_capacity(2),
        }
    }
}

impl CipClass for TcpIpInterfaceClass {
    closed spec fn id(&self) -> u16 {
        self.class_id
    }

    closed spec fn name(&self) -> Seq<char> {
        self.class_name@
    }

    closed spec fn instances(&self) -> Seq<CipInstanceHandle> {
        self.instances@
    }

    /// The instance id is a 1-based index into the instances: 0 is no id,
    /// and an id beyond the last instance names nothing.
    open spec fn lookup(&self, instance_id: u16) -> Result<CipInstanceHandle, CipError> {
        if instance_id == 0 {
            Err(CipError::GeneralError)
        } else if instance_id <= self.instances().len() {
            Ok(self.instances()[instance_id - 1])
        } else {
            Err(CipError::ObjectDoesNotExist)
        }
    }

    /// An instance of any kind is taken, behind those that are there.
    open spec fn registered(&self, instance: CipInstanceHandle) -> Result<
        Seq<CipInstanceHandle>,
        CipError,
    > {
        Ok(self.instances().push(instance))
    }

    fn class_id(&self) -> (r: u16) {
        self.class_id
    }

    fn class_name(&self) -> (r: &'static str) {
        self.class_name
    }

    fn instance(&self, instance_id: u16) -> (r: Result<&CipInstanceHandle, CipError>) {
        if instance_id == 0 {
            return Err(CipError::GeneralError);
        }
        let index: usize = (instance_id - 1) as usize;
        if index < self.instances.len() {
            Ok(&self.instances[index])
        } else {
            Err(CipError::ObjectDoesNotExist)
        }
    }

    fn add_instance(&mut self, instance: CipInstanceHandle) -> (r: Result<(), CipError>)
        ensures
            r is Ok,
    {
        self.instances.push(instance);
        Ok(())
    }
}

} // verus!
