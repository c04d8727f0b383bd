//! What holds of every discovery exchange, proved of `datagram_reply`: the
//! function that `handle_udp_broadcast` and `handle_datagram` are proved to
//! compute.

use crate::cip::cip_class::CipClassHandle;
use crate::cip::cip_identity::IdentityInstance;
use crate::cip::registry::{Registry, Resolution};
use crate::cip::tcp_ip_interface::TcpIpInterfaceInstance;
use crate::encap::cpf::{cpf_bytes, item_bytes, items_bytes, CpfItem};
use crate::encap::handler::{datagram_outcome, datagram_reply, reply_bytes, Outcome};
use crate::encap::header::{lemma_header_roundtrip, EncapsulationHeader};
use crate::encap::list_identity::{
    device_identity, device_interface, identity_bytes, identity_item_data, identity_payload,
    lemma_identity_payload_len, name_bytes, socket_address_bytes,
};
use crate::wire::{be16, le16, le32, zeros};
use vstd::prelude::*;

verus! {

/// The header that a datagram opens with is valid, whatever its bytes.
pub proof fn lemma_decoded_header_is_valid(datagram: Seq<u8>)
    ensures
        EncapsulationHeader::from_wire(datagram).is_valid(),
{
    reveal(EncapsulationHeader::from_wire);
}

/// A datagram shorter than a header gets no reply.
pub proof fn lemma_short_datagram_is_dropped(registry: Registry, datagram: Seq<u8>)
    requires
        datagram.len() < 24,
    ensures
        datagram_reply(registry, datagram) is None,
{
}

/// A datagram whose length field is not the length of its payload is
/// answered with the status `InvalidLength` and no payload, whatever its
/// command: the reply is 24 bytes that read back as the request's header
/// with the status 0x65 and the length 0. An unknown command comes back as
/// it came.
pub proof fn lemma_length_mismatch_reply(registry: Registry, datagram: Seq<u8>)
    requires
        datagram.len() >= 24,
        EncapsulationHeader::from_wire(datagram).length != datagram.len() - 24,
    ensures
        ({
            let header = EncapsulationHeader::from_wire(datagram);
            &&& datagram_reply(registry, datagram) matches Some(reply)
            &&& reply == header.reply(0x65, 0).wire_bytes()
            &&& reply.len() == 24
            &&& EncapsulationHeader::from_wire(reply).command == header.command
            &&& EncapsulationHeader::from_wire(reply).status == 0x65
            &&& EncapsulationHeader::from_wire(reply).length == 0
            &&& EncapsulationHeader::from_wire(reply) == header.reply(0x65, 0)
        }),
{
    let header = EncapsulationHeader::from_wire(datagram);
    lemma_decoded_header_is_valid(datagram);
    lemma_reads_back(header.reply(0x65, 0));
}

/// A ListIdentity request with a payload is answered with the status
/// `InvalidLength` (0x65) and the length 0, whether or not the length field
/// announces the payload.
pub proof fn lemma_list_identity_with_payload(registry: Registry, datagram: Seq<u8>)
    requires
        datagram.len() > 24,
        EncapsulationHeader::from_wire(datagram).command is ListIdentity,
    ensures
        ({
            let header = EncapsulationHeader::from_wire(datagram);
            &&& datagram_reply(registry, datagram) matches Some(reply)
            &&& reply == header.reply(0x65, 0).wire_bytes()
            &&& EncapsulationHeader::from_wire(reply) == header.reply(0x65, 0)
        }),
{
    let header = EncapsulationHeader::from_wire(datagram);
    lemma_decoded_header_is_valid(datagram);
    lemma_reads_back(header.reply(0x65, 0));
}

/// A well-framed request with a command that is not served (every command
/// but `Nop` and `ListIdentity`: those outside the allow-list, and
/// `ListInterfaces` and `ListServices` within it) is answered with the
/// status `InvalidOrUnsupportedCommand` (0x01) and the length 0; command,
/// session handle, context and options are echoed.
pub proof fn lemma_unsupported_command_reply(registry: Registry, datagram: Seq<u8>)
    requires
        datagram.len() >= 24,
        EncapsulationHeader::from_wire(datagram).length == datagram.len() - 24,
        !(EncapsulationHeader::from_wire(datagram).command is Nop),
        !(EncapsulationHeader::from_wire(datagram).command is ListIdentity),
    ensures
        ({
            let header = EncapsulationHeader::from_wire(datagram);
            &&& datagram_reply(registry, datagram) matches Some(reply)
            &&& reply == header.reply(0x01, 0).wire_bytes()
            &&& EncapsulationHeader::from_wire(reply) == header.reply(0x01, 0)
        }),
{
    let header = EncapsulationHeader::from_wire(datagram);
    lemma_decoded_header_is_valid(datagram);
    lemma_reads_back(header.reply(0x01, 0));
}

/// A well-framed `Nop` is answered with the status `Success` and no
/// payload.
pub proof fn lemma_nop_reply(registry: Registry, datagram: Seq<u8>)
    requires
        datagram.len() == 24,
        EncapsulationHeader::from_wire(datagram).length == 0,
        EncapsulationHeader::from_wire(datagram).command is Nop,
    ensures
        datagram_reply(registry, datagram) == Some(
            EncapsulationHeader::from_wire(datagram).reply(0, 0).wire_bytes(),
        ),
{
    let header = EncapsulationHeader::from_wire(datagram);
    assert(header.reply(0, 0).wire_bytes() + Seq::<u8>::empty() =~= header.reply(0, 0).wire_bytes());
}

/// A registry without the Identity class gives no reply to a ListIdentity
/// request; so an empty registry gives none.
pub proof fn lemma_no_identity_no_reply(registry: Registry, datagram: Seq<u8>)
    requires
        datagram.len() == 24,
        EncapsulationHeader::from_wire(datagram).length == 0,
        EncapsulationHeader::from_wire(datagram).command is ListIdentity,
        registry@ == Map::<u16, CipClassHandle>::empty() || !registry@.contains_key(0x01),
    ensures
        datagram_reply(registry, datagram) is None,
{
}

/// The data of the identity item, spelled out: the protocol version 1; the
/// socket address in network byte order, with the family 2, the port
/// 0xAF12, the four address bytes and eight zero bytes; vendor id, device
/// type and product code; the two revision bytes; status and serial number;
/// the length of the product name in one byte, the name, and the state.
pub open spec fn identity_data_layout(
    identity: IdentityInstance,
    interface: TcpIpInterfaceInstance,
) -> Seq<u8> {
    let name = name_bytes(identity);
    le16(1) + (be16(2) + be16(0xAF12) + interface.octets()@ + zeros(8)) + (le16(identity.vendor_id)
        + le16(identity.device_type) + le16(identity.product_code) + seq![
        identity.revision_major,
        identity.revision_minor,
    ] + le16(identity.status) + le32(identity.serial_number) + seq![name.len() as u8] + name
        + seq![identity.state])
}

/// The payload of a ListIdentity reply, spelled out: the item count 1, the
/// item type 0x000C, the length of the item's data, and the data. The law
/// is stated of names of at most 255 bytes, which is all that the length
/// byte can say.
pub proof fn lemma_identity_payload_layout(
    identity: IdentityInstance,
    interface: TcpIpInterfaceInstance,
)
    requires
        name_bytes(identity).len() <= 255,
    ensures
        identity_data_layout(identity, interface).len() == 34 + name_bytes(identity).len(),
        identity_payload(identity, interface) == le16(1) + le16(0x000C) + le16(
            (34 + name_bytes(identity).len()) as u16,
        ) + identity_data_layout(identity, interface),
        identity_payload(identity, interface).len() == 40 + name_bytes(identity).len(),
{
    lemma_identity_payload_len(identity, interface);
    let data = identity_item_data(identity, interface);
    assert(data == identity_data_layout(identity, interface)) by {
        reveal(socket_address_bytes);
        reveal(identity_bytes);
    }
    let item = CpfItem { type_id: 0x000C, data };
    let items = seq![item];
    assert(items.drop_last() =~= Seq::<CpfItem>::empty());
    assert(items.last() == item);
    assert(items_bytes(items.drop_last()) =~= Seq::<u8>::empty());
    assert(items_bytes(items) =~= item_bytes(item));
    assert(cpf_bytes(items) =~= le16(1) + le16(0x000C) + le16((34 + name_bytes(identity).len()) as u16)
        + data);
}

/// A registry with the identity and one address ends a ListIdentity
/// request without payload with the identity payload.
pub proof fn lemma_list_identity_outcome(
    registry: Registry,
    datagram: Seq<u8>,
    identity: IdentityInstance,
    interface: TcpIpInterfaceInstance,
)
    requires
        datagram.len() == 24,
        EncapsulationHeader::from_wire(datagram).length == 0,
        EncapsulationHeader::from_wire(datagram).command is ListIdentity,
        device_identity(registry) == Resolution::Found(identity),
        device_interface(registry) == Resolution::Found(interface),
        name_bytes(identity).len() <= 255,
    ensures
        datagram_outcome(registry, datagram) == Outcome::Payload(
            identity_payload(identity, interface),
        ),
{
    lemma_identity_payload_len(identity, interface);
}

/// A registry with the identity and one address answers a ListIdentity
/// request without payload: the reply has the status 0 and a length that is
/// not 0, and its payload is the identity payload, whose layout
/// `lemma_identity_payload_layout` spells out.
pub proof fn lemma_list_identity_reply(
    registry: Registry,
    datagram: Seq<u8>,
    identity: IdentityInstance,
    interface: TcpIpInterfaceInstance,
)
    requires
        datagram.len() == 24,
        EncapsulationHeader::from_wire(datagram).length == 0,
        EncapsulationHeader::from_wire(datagram).command is ListIdentity,
        device_identity(registry) == Resolution::Found(identity),
        device_interface(registry) == Resolution::Found(interface),
        name_bytes(identity).len() <= 255,
    ensures
        ({
            let header = EncapsulationHeader::from_wire(datagram);
            let payload = identity_payload(identity, interface);
            let reply_header = header.reply(0, (40 + name_bytes(identity).len()) as u16);
            &&& reply_header.status == 0
            &&& reply_header.length > 0
            &&& reply_header.length == payload.len()
            &&& datagram_reply(registry, datagram) == Some(reply_header.wire_bytes() + payload)
            &&& EncapsulationHeader::from_wire(reply_header.wire_bytes() + payload) == reply_header
        }),
{
    let header = EncapsulationHeader::from_wire(datagram);
    let payload = identity_payload(identity, interface);
    let outcome = Outcome::Payload(payload);
    lemma_identity_payload_len(identity, interface);
    lemma_list_identity_outcome(registry, datagram, identity, interface);
    let reply_header = header.reply(0, (40 + name_bytes(identity).len()) as u16);
    assert(reply_header == crate::encap::handler::reply_header(header, outcome));
    assert(reply_bytes(header, outcome) == Some(reply_header.wire_bytes() + payload));
    lemma_header_roundtrip(reply_header, payload);
}

/// The 24 bytes of a valid header read back as that header.
pub proof fn lemma_reads_back(header: EncapsulationHeader)
    requires
        header.is_valid(),
    ensures
        header.wire_bytes().len() == 24,
        EncapsulationHeader::from_wire(header.wire_bytes()) == header,
{
    lemma_header_roundtrip(header, Seq::<u8>::empty());
    assert(header.wire_bytes() + Seq::<u8>::empty() =~= header.wire_bytes());
}

} // verus!
