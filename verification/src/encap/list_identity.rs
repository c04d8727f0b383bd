//! The payload of a ListIdentity reply: one CPF item that carries the
//! device's socket address and identity.

use crate::buf::{
    bytes_mut_contents, bytes_mut_put_slice, bytes_mut_put_u16, bytes_mut_put_u16_le,
    bytes_mut_put_u32_le, bytes_mut_put_u8, bytes_mut_remaining,
};
use crate::cip::cip_identity::IdentityInstance;
use crate::cip::registry::{failure_text, Registry, Resolution};
use crate::cip::tcp_ip_interface::{TcpIpInterfaceInstance, AF_INET, EIP_RESERVED_PORT};
use crate::cip::CipClassId;
use crate::encap::cpf::{cpf_bytes, items_bytes, CpfEncoder, CpfItem, CpfItemId};
use crate::encap::error::{insufficient_buffer_space, InternalError};
use crate::encap::ENCAPSULATION_PROTOCOL_VERSION;
use crate::wire::{be16, le16, le32, zeros};
use bytes::BytesMut;
use vstd::prelude::*;
use vstd::utf8::encode_utf8;

verus! {

/// The bytes of a product name: its text in UTF-8. For a name in ASCII that
/// is one byte for each character.
pub open spec fn name_bytes(identity: IdentityInstance) -> Seq<u8> {
    encode_utf8(identity.product_name@)
}

/// The address of the device as a socket address, in network byte order:
/// the family, the port, the four address bytes and eight zero bytes.
#[verifier::opaque]
pub open spec fn socket_address_bytes(interface: TcpIpInterfaceInstance) -> Seq<u8> {
    be16(AF_INET) + be16(EIP_RESERVED_PORT) + interface.octets()@ + zeros(8)
}

/// The attributes of the identity: vendor id, device type, product code,
/// the two revision bytes, status and serial number, little-endian; the
/// length of the product name in one byte, the name, and the state. The
/// name's length has one byte: a name of more than 255 bytes wraps round.
#[verifier::opaque]
pub open spec fn identity_bytes(identity: IdentityInstance) -> Seq<u8> {
    le16(identity.vendor_id) + le16(identity.device_type) + le16(identity.product_code) + seq![
        identity.revision_major,
        identity.revision_minor,
    ] + le16(identity.status) + le32(identity.serial_number) + seq![
        (name_bytes(identity).len() % 256) as u8,
    ] + name_bytes(identity) + seq![identity.state]
}

/// The data of the identity item: the protocol version, the socket address
/// and the attributes of the identity.
pub open spec fn identity_item_data(
    identity: IdentityInstance,
    interface: TcpIpInterfaceInstance,
) -> Seq<u8> {
    le16(ENCAPSULATION_PROTOCOL_VERSION) + socket_address_bytes(interface) + identity_bytes(
        identity,
    )
}

/// The payload of the reply: a CPF block with the identity item alone.
pub open spec fn identity_payload(
    identity: IdentityInstance,
    interface: TcpIpInterfaceInstance,
) -> Seq<u8> {
    cpf_bytes(seq![CpfItem { type_id: CpfItemId::IdentityItem.code(), data: identity_item_data(identity, interface) }])
}

/// The identity of the device: instance 1 of the Identity class.
pub open spec fn device_identity(registry: Registry) -> Resolution<IdentityInstance> {
    registry.resolve::<IdentityInstance>(CipClassId::IdentityClassId.code(), 1)
}

/// The address of the device: instance 1 of the TCP/IP Interface class.
pub open spec fn device_interface(registry: Registry) -> Resolution<TcpIpInterfaceInstance> {
    registry.resolve::<TcpIpInterfaceInstance>(CipClassId::TcpIpInterfaceClassId.code(), 1)
}

/// The payload that the registry gives, where it holds both the identity
/// and the address of the device.
pub open spec fn discovery_payload(registry: Registry) -> Option<Seq<u8>> {
    match (device_identity(registry), device_interface(registry)) {
        (Resolution::Found(identity), Resolution::Found(interface)) => Some(
            identity_payload(identity, interface),
        ),
        _ => None,
    }
}

/// The payload has 40 bytes and the name: 2 for the item count, 4 for the
/// item's header, 2 for the version, 16 for the socket address and 16 for
/// the attributes.
pub proof fn lemma_identity_payload_len(
    identity: IdentityInstance,
    interface: TcpIpInterfaceInstance,
)
    ensures
        socket_address_bytes(interface).len() == 16,
        identity_bytes(identity).len() == 16 + name_bytes(identity).len(),
        identity_item_data(identity, interface).len() == 34 + name_bytes(identity).len(),
        identity_payload(identity, interface).len() == 40 + name_bytes(identity).len(),
{
    reveal(socket_address_bytes);
    reveal(identity_bytes);
    reveal_with_fuel(items_bytes, 2);
    let item = CpfItem {
        type_id: CpfItemId::IdentityItem.code(),
        data: identity_item_data(identity, interface),
    };
    assert(seq![item].drop_last() =~= Seq::<CpfItem>::empty());
}

/// Appends the socket address of `interface`.
fn put_socket_address(buf: &mut BytesMut, interface: &TcpIpInterfaceInstance)
    requires
        bytes_mut_contents(*old(buf)).len() + 16 <= isize::MAX,
    ensures
        bytes_mut_contents(*final(buf)) == bytes_mut_contents(*old(buf)) + socket_address_bytes(
            *interface,
        ),
{
    let ghost before = bytes_mut_contents(*buf);
    bytes_mut_put_u16(buf, interface.sin_family());
    bytes_mut_put_u16(buf, interface.sin_port());
    let addr: [u8; 4] = interface.sin_addr();
    bytes_mut_put_slice(buf, addr.as_slice());
    let zero: [u8; 8] = interface.sin_zero();
    bytes_mut_put_slice(buf, zero.as_slice());
    proof {
        reveal(socket_address_bytes);
        assert(bytes_mut_contents(*buf) =~= before + socket_address_bytes(*interface));
    }
}

/// Appends the attributes of `identity`.
fn put_identity(buf: &mut BytesMut, identity: &IdentityInstance)
    requires
        bytes_mut_contents(*old(buf)).len() + 16 + name_bytes(*identity).len() <= isize::MAX,
    ensures
        bytes_mut_contents(*final(buf)) == bytes_mut_contents(*old(buf)) + identity_bytes(
            *identity,
        ),
{
    let ghost before = bytes_mut_contents(*buf);
    let name: &[u8] = identity.product_name.as_str().as_bytes();
    bytes_mut_put_u16_le(buf, identity.vendor_id);
    bytes_mut_put_u16_le(buf, identity.device_type);
    bytes_mut_put_u16_le(buf, identity.product_code);
    bytes_mut_put_u8(buf, identity.revision_major);
    bytes_mut_put_u8(buf, identity.revision_minor);
    bytes_mut_put_u16_le(buf, identity.status);
    bytes_mut_put_u32_le(buf, identity.serial_number);
    bytes_mut_put_u8(buf, (name.len() % 256) as u8);
    bytes_mut_put_slice(buf, name);
    bytes_mut_put_u8(buf, identity.state);
    proof {
        reveal(identity_bytes);
        assert(bytes_mut_contents(*buf) =~= before + identity_bytes(*identity));
    }
}

/// Appends the ListIdentity payload to `out_buf`.
///
/// The identity and then the address are looked up in the registry; the
/// first lookup that fails is reported with its message, as
/// `InternalError::Other`. A payload for which the buffer has no room is
/// reported as `InternalError::Io`. On any failure nothing is written.
pub fn list_identity(registry: &Registry, out_buf: &mut BytesMut) -> (r: Result<
    (),
    InternalError,
>)
    ensures
        match r {
            Ok(()) => {
                &&& discovery_payload(*registry) matches Some(payload)
                &&& bytes_mut_contents(*old(out_buf)).len() + payload.len() <= isize::MAX
                &&& bytes_mut_contents(*final(out_buf)) == bytes_mut_contents(*old(out_buf))
                    + payload
            },
            Err(e) => {
                &&& bytes_mut_contents(*final(out_buf)) == bytes_mut_contents(*old(out_buf))
                &&& match e {
                    InternalError::Other(message) => if device_identity(*registry) is Found {
                        &&& !(device_interface(*registry) is Found)
                        &&& message@ == failure_text(
                            device_interface(*registry),
                            CipClassId::TcpIpInterfaceClassId,
                            1,
                        )
                    } else {
                        message@ == failure_text(
                            device_identity(*registry),
                            CipClassId::IdentityClassId,
                            1,
                        )
                    },
                    InternalError::Io(_) => {
                        &&& discovery_payload(*registry) matches Some(payload)
                        &&& bytes_mut_contents(*old(out_buf)).len() + payload.len() > isize::MAX
                    },
                }
            },
        },
{
    let identity = match registry.get_instance::<IdentityInstance>(CipClassId::IdentityClassId, 1) {
        Ok(identity) => identity,
        Err(message) => {
            return Err(InternalError::from(message));
        },
    };
    let tcp_ip_if = match registry.get_instance::<TcpIpInterfaceInstance>(
        CipClassId::TcpIpInterfaceClassId,
        1,
    ) {
        Ok(tcp_ip_if) => tcp_ip_if,
        Err(message) => {
            return Err(InternalError::from(message));
        },
    };
    let name_len: usize = identity.product_name.as_str().as_bytes().len();
    proof {
        lemma_identity_payload_len(*identity, *tcp_ip_if);
    }
    let remaining: usize = bytes_mut_remaining(out_buf);
    if remaining < 40 || remaining - 40 < name_len {
        return Err(InternalError::from(insufficient_buffer_space()));
    }
    let ghost data = identity_item_data(*identity, *tcp_ip_if);

    let mut cpf_encoder = CpfEncoder::new(out_buf);
    let buf = cpf_encoder.add_item_start(CpfItemId::IdentityItem);
    let ghost head = bytes_mut_contents(*buf);

    bytes_mut_put_u16_le(buf, ENCAPSULATION_PROTOCOL_VERSION);
    put_socket_address(buf, tcp_ip_if);
    put_identity(buf, identity);
    proof {
        let now = bytes_mut_contents(*buf);
        assert(now =~= head + data);
        assert(head.is_prefix_of(now));
        assert(now.skip(head.len() as int) =~= data);
    }
    let ghost items = cpf_encoder.items();
    cpf_encoder.finish();
    proof {
        assert(items =~= seq![CpfItem { type_id: CpfItemId::IdentityItem.code(), data }]);
    }
    Ok(())
}

} // verus!
