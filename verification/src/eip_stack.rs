//! Assembling the stack: from the configuration to the registry that the
//! transports answer from.

use crate::cip::cip_class::{CipClass, CipClassHandle, CipInstance};
use crate::cip::cip_error::CipError;
use crate::cip::cip_identity::{IdentityClass, IdentityInfo};
use crate::cip::registry::{Registry, Resolution};
use crate::cip::tcp_ip_interface::{TcpIpInterfaceClass, TcpIpInterfaceInstance, EIP_RESERVED_PORT};
use crate::cip::CipClassId;
use crate::encap::list_identity::{device_identity, device_interface};
use vstd::prelude::*;

verus! {

/// What a stack is built from: the identity of the device, the IPv4 address
/// that it advertises, as four bytes, and the port of UDP discovery.
#[derive(Debug)]
pub struct EipConfig {
    pub identity: IdentityInfo,
    pub local_address: [u8; 4],
    pub udp_broadcast_port: u16,
}

/// Collects the configuration of a stack, then registers its objects.
pub struct EipStackBuilder {
    config: EipConfig,
    registry: Registry,
}

impl EipStackBuilder {
    /// The configuration so far.
    pub closed spec fn settings(&self) -> EipConfig {
        self.config
    }

    /// The classes registered so far.
    pub closed spec fn classes(&self) -> Map<u16, CipClassHandle> {
        self.registry@
    }

    /// A builder for a device with the identity `identity`. Until told
    /// otherwise, the address is the unspecified one, 0.0.0.0, and the port
    /// the reserved one, 0xAF12.
    pub fn new(identity: IdentityInfo) -> (r: Self)
        ensures
            r.settings().identity == identity,
            r.settings().local_address@ == seq![0u8, 0u8, 0u8, 0u8],
            r.settings().udp_broadcast_port == EIP_RESERVED_PORT,
            r.classes() == Map::<u16, CipClassHandle>::empty(),
    {
        Self {
            config: EipConfig {
                identity,
                local_address: [0, 0, 0, 0],
                udp_broadcast_port: EIP_RESERVED_PORT,
            },
            registry: Registry::new(),
        }
    }

    /// The same builder, with `addr` as the address to advertise.
    pub fn with_address(self, addr: [u8; 4]) -> (r: Self)
        ensures
            r.settings().local_address == addr,
            r.settings().identity == self.settings().identity,
            r.settings().udp_broadcast_port == self.settings().udp_broadcast_port,
            r.classes() == self.classes(),
    {
        let mut this = self;
        this.config.local_address = addr;
        this
    }

    /// The same builder, with `port` as the port of UDP discovery.
    pub fn with_udp_broadcast_port(self, port: u16) -> (r: Self)
        ensures
            r.settings().udp_broadcast_port == port,
            r.settings().identity == self.settings().identity,
            r.settings().local_address == self.settings().local_address,
            r.classes() == self.classes(),
    {
        let mut this = self;
        this.config.udp_broadcast_port = port;
        this
    }

    /// The configuration so far.
    pub fn config(&self) -> (r: &EipConfig)
        ensures
            *r == self.settings(),
    {
        &self.config
    }

    /// Registers the objects of the device: the Identity class, with its
    /// instance filled from the configured identity, and the TCP/IP
    /// Interface class, with one instance for the configured address. It
    /// always succeeds, and the registry that comes out resolves both the
    /// identity and the address of the device.
    pub fn build_registry(self) -> (r: Result<Registry, CipError>)
        ensures
            r matches Ok(registry) && {
                &&& registry@.dom() == self.classes().dom().insert(
                    CipClassId::IdentityClassId.code(),
                ).insert(CipClassId::TcpIpInterfaceClassId.code())
                &&& device_identity(registry) matches Resolution::Found(identity)
                &&& identity.class == CipClassId::IdentityClassId.code()
                &&& identity.vendor_id == self.settings().identity.vendor_id
                &&& identity.device_type == self.settings().identity.device_type
                &&& identity.product_code == self.settings().identity.product_code
                &&& identity.revision_major == self.settings().identity.revision_major
                &&& identity.revision_minor == self.settings().identity.revision_minor
                &&& identity.status == 0
                &&& identity.serial_number == self.settings().identity.serial_number
                &&& identity.product_name@ == self.settings().identity.product_name@
                &&& identity.state == 0
                &&& device_interface(registry) matches Resolution::Found(interface)
                &&& interface.owner() == CipClassId::TcpIpInterfaceClassId.code()
                &&& interface.octets() == self.settings().local_address
            },
    {
        let mut this = self;
        let identity_class = IdentityClass::new(&this.config.identity);
        this.registry.register(CipClassHandle::Identity(identity_class));

        let mut tcp_ip_if_class = TcpIpInterfaceClass::new();
        let tcp_ip_if_instance = TcpIpInterfaceInstance::new(
            tcp_ip_if_class.class_id(),
            this.config.local_address,
        );
        match tcp_ip_if_class.add_instance(tcp_ip_if_instance.into_handle()) {
            Ok(()) => {},
            Err(e) => {
                return Err(e);
            },
        }
        this.registry.register(CipClassHandle::TcpIpInterface(tcp_ip_if_class));
        Ok(this.registry)
    }
}

} // verus!
