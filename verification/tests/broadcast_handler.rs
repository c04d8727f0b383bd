use bytes::Bytes;
use rs_eip_adapter::cip::cip_class::{CipClass, CipClassHandle, CipInstance};
use rs_eip_adapter::cip::cip_identity::{IdentityClass, IdentityInfo};
use rs_eip_adapter::cip::registry::Registry;
use rs_eip_adapter::cip::tcp_ip_interface::{TcpIpInterfaceClass, TcpIpInterfaceInstance};
use rs_eip_adapter::encap::broadcast_handler::BroadcastHandler;
use rs_eip_adapter::encap::command::EncapsulationCommand;
use rs_eip_adapter::encap::error::EncapsulationError;
use rs_eip_adapter::encap::header::EncapsulationHeader;
use rs_eip_adapter::encap::Encapsulation;
use std::sync::Arc;

fn create_registry_for_broadcast_test() -> Arc<Registry> {
    let mut registry_instance = Registry::new();

    let identity_data = IdentityInfo {
        vendor_id: 0x01,
        device_type: 0x02,
        product_code: 0x03,
        revision_major: 1,
        revision_minor: 0,
        serial_number: 1234,
        product_name: "Integration Test Device",
    };
    registry_instance.register(CipClassHandle::Identity(IdentityClass::new(&identity_data)));

    let mut tcp_interface_class = TcpIpInterfaceClass::new();
    let tcp_interface_instance =
        TcpIpInterfaceInstance::new(tcp_interface_class.class_id(), [127, 0, 0, 1]);
    tcp_interface_class
        .add_instance(tcp_interface_instance.into_handle())
        .expect("register tcp instance");
    registry_instance.register(CipClassHandle::TcpIpInterface(tcp_interface_class));

    Arc::new(registry_instance)
}

#[test]
fn broadcast_handler_reply_status_success_for_list_identity() {
    let registry = create_registry_for_broadcast_test();
    let handler = BroadcastHandler::new(registry);

    let request_header = EncapsulationHeader {
        command: EncapsulationCommand::ListIdentity,
        length: 0,
        session_handle: 0,
        status: 0,
        context: [0u8; 8],
        options: 0,
    };

    let mut encapsulation = Encapsulation::new(request_header, Bytes::from(vec![0u8; 0]))
        .expect("Should create new Encapsulation");
    let mut response_bytes = handler
        .handle(&mut encapsulation)
        .expect("Should handle request");

    let response_header =
        EncapsulationHeader::decode(&mut response_bytes).expect("decode response");

    assert_eq!(response_header.command, EncapsulationCommand::ListIdentity);
    assert_eq!(response_header.status, 0);
    assert!(response_header.length > 0);
    assert_eq!(response_header.length, 40 + 23);
    assert_eq!(response_bytes.len(), 40 + 23);
    assert_eq!(encapsulation.header, response_header);
}

#[test]
fn broadcast_handler_should_reply_status_error_for_unsupported_command() {
    let registry = create_registry_for_broadcast_test();
    let handler = BroadcastHandler::new(registry);

    let request_header = EncapsulationHeader {
        command: EncapsulationCommand::RegisterSession,
        length: 0,
        session_handle: 0,
        status: 0,
        context: [0u8; 8],
        options: 0,
    };

    let mut encapsulation = Encapsulation::new(request_header, Bytes::from(vec![0u8; 0]))
        .expect("Should create new Encapsulation");
    let mut response_bytes = handler
        .handle(&mut encapsulation)
        .expect("Should handle request");

    let response_header =
        EncapsulationHeader::decode(&mut response_bytes).expect("decode response");

    assert_eq!(
        response_header.status,
        EncapsulationError::InvalidOrUnsupportedCommand.to_u32()
    );
}

#[test]
fn broadcast_handler_should_reply_status_error_for_partially_supported_commands() {
    let registry = create_registry_for_broadcast_test();
    let handler = BroadcastHandler::new(registry);

    for command in &[
        EncapsulationCommand::ListInterfaces,
        EncapsulationCommand::ListServices,
    ] {
        let request_header = EncapsulationHeader {
            command: command.clone(),
            length: 0,
            session_handle: 0,
            status: 0,
            context: [0; 8],
            options: 0,
        };

        let mut encapsulation = Encapsulation::new(request_header, Bytes::from(vec![0u8; 0]))
            .expect("Should create new Encapsulation");
        let mut response_bytes = handler
            .handle(&mut encapsulation)
            .expect("Should handle request");

        let response_header =
            EncapsulationHeader::decode(&mut response_bytes).expect("decode response");

        assert_eq!(
            response_header.status,
            EncapsulationError::InvalidOrUnsupportedCommand.to_u32()
        );
    }
}

#[test]
fn broadcast_handler_should_not_reply_on_list_identity_error() {
    let empty_registry = Arc::new(Registry::new());
    let handler = BroadcastHandler::new(empty_registry);

    let request_header = EncapsulationHeader {
        command: EncapsulationCommand::ListIdentity,
        length: 0,
        session_handle: 0,
        status: 0,
        context: [0; 8],
        options: 0,
    };

    let mut encapsulation = Encapsulation::new(request_header, Bytes::from(vec![0u8; 0]))
        .expect("Should create new Encapsulation");
    let response_bytes_opt = handler.handle(&mut encapsulation);

    assert!(response_bytes_opt.is_none());
    assert_eq!(encapsulation.header, request_header);
}

#[test]
fn broadcast_handler_should_reply_error_status_for_list_identity_payload_is_not_empty() {
    let registry = create_registry_for_broadcast_test();
    let handler = BroadcastHandler::new(registry);

    let request_header = EncapsulationHeader {
        command: EncapsulationCommand::ListIdentity,
        length: 4,
        session_handle: 0,
        status: 0,
        context: [0; 8],
        options: 0,
    };

    let mut encapsulation = Encapsulation::new(request_header, Bytes::from(vec![1, 2, 3, 4]))
        .expect("Should create new Encapsulation");
    let mut response_bytes = handler
        .handle(&mut encapsulation)
        .expect("Should handle request");

    let response_header =
        EncapsulationHeader::decode(&mut response_bytes).expect("decode response");

    assert_eq!(response_header.command, EncapsulationCommand::ListIdentity);
    assert_eq!(
        response_header.status,
        EncapsulationError::InvalidLength.to_u32()
    );
    assert!(response_header.length == 0);
}

#[test]
fn broadcast_handler_answers_nop_with_success_and_no_payload() {
    let handler = BroadcastHandler::new(Arc::new(Registry::new()));
    let request_header = EncapsulationHeader {
        command: EncapsulationCommand::Nop,
        length: 0,
        session_handle: 0x0BADCAFE,
        status: 0x77,
        context: [9, 8, 7, 6, 5, 4, 3, 2],
        options: 0x01020304,
    };
    let mut encapsulation =
        Encapsulation::new(request_header, Bytes::new()).expect("a frame");
    let mut response_bytes = handler.handle(&mut encapsulation).expect("a reply");
    assert_eq!(response_bytes.len(), 24);
    let response_header =
        EncapsulationHeader::decode(&mut response_bytes).expect("decode response");
    assert_eq!(
        response_header,
        EncapsulationHeader { status: 0, length: 0, ..request_header }
    );
}

#[test]
fn broadcast_handler_admits_the_discovery_commands_only() {
    let handler = BroadcastHandler::new(Arc::new(Registry::new()));
    assert!(handler.is_valid_command(EncapsulationCommand::Nop));
    assert!(handler.is_valid_command(EncapsulationCommand::ListIdentity));
    assert!(handler.is_valid_command(EncapsulationCommand::ListInterfaces));
    assert!(handler.is_valid_command(EncapsulationCommand::ListServices));
    assert!(!handler.is_valid_command(EncapsulationCommand::RegisterSession));
    assert!(!handler.is_valid_command(EncapsulationCommand::UnregisterSession));
    assert!(!handler.is_valid_command(EncapsulationCommand::SendRRData));
    assert!(!handler.is_valid_command(EncapsulationCommand::SendUnitData));
    assert!(!handler.is_valid_command(EncapsulationCommand::Unknown(0x63)));
    assert!(!handler.is_valid_command(EncapsulationCommand::Unknown(0xFFFF)));
}

#[test]
fn broadcast_handler_error_reply_echoes_session_context_and_options() {
    let registry = create_registry_for_broadcast_test();
    let handler = BroadcastHandler::new(registry);
    let request_header = EncapsulationHeader {
        command: EncapsulationCommand::SendUnitData,
        length: 2,
        session_handle: 0xCAFEBABE,
        status: 0x1234,
        context: [1, 2, 3, 4, 5, 6, 7, 8],
        options: 0x0F0E0D0C,
    };
    let mut encapsulation =
        Encapsulation::new(request_header, Bytes::from(vec![1, 2])).expect("a frame");
    let mut response_bytes = handler.handle(&mut encapsulation).expect("a reply");
    assert_eq!(response_bytes.len(), 24);
    let response_header =
        EncapsulationHeader::decode(&mut response_bytes).expect("decode response");
    assert_eq!(
        response_header,
        EncapsulationHeader { status: 0x0001, length: 0, ..request_header }
    );
    assert_eq!(encapsulation.header, response_header);
    assert_eq!(&encapsulation.payload[..], &[1, 2]);
}
