use bytes::{BufMut, BytesMut};
use rs_eip_adapter::cip::cip_class::{CipClass, CipClassHandle, CipInstance};
use rs_eip_adapter::cip::cip_identity::{IdentityClass, IdentityInfo, IdentityInstance};
use rs_eip_adapter::cip::registry::Registry;
use rs_eip_adapter::cip::tcp_ip_interface::{TcpIpInterfaceClass, TcpIpInterfaceInstance};
use rs_eip_adapter::encap::cpf::CpfItemId;
use rs_eip_adapter::encap::error::InternalError;
use rs_eip_adapter::encap::list_identity::list_identity;

fn registry_with(identity: CipClassHandle, address: [u8; 4]) -> Registry {
    let mut registry = Registry::new();
    registry.register(identity);
    let mut tcp_ip_class = TcpIpInterfaceClass::new();
    let tcp_ip_instance = TcpIpInterfaceInstance::new(tcp_ip_class.class_id(), address);
    tcp_ip_class.add_instance(tcp_ip_instance.into_handle()).unwrap();
    registry.register(CipClassHandle::TcpIpInterface(tcp_ip_class));
    registry
}

#[test]
fn list_identity_encodes_correct_binary_structure() {
    let mut registry = Registry::new();

    let identity_info = IdentityInfo {
        vendor_id: 0x1234,
        device_type: 0x0002,
        product_code: 0x0007,
        revision_major: 1,
        revision_minor: 5,
        serial_number: 0xDEADBEEF,
        product_name: "Test",
    };
    registry.register(CipClassHandle::Identity(IdentityClass::new(&identity_info)));

    let mut tcp_ip_class = TcpIpInterfaceClass::new();
    let tcp_ip_instance = TcpIpInterfaceInstance::new(tcp_ip_class.class_id(), [192, 168, 0, 10]);
    tcp_ip_class.add_instance(tcp_ip_instance.into_handle()).unwrap();
    registry.register(CipClassHandle::TcpIpInterface(tcp_ip_class));

    let mut output_buffer = BytesMut::new();
    list_identity(&registry, &mut output_buffer).expect("list_identity failed");

    let result_bytes = output_buffer.freeze();
    let cpf_item_count = u16::from_le_bytes([result_bytes[0], result_bytes[1]]);
    assert_eq!(cpf_item_count, 1);

    let cpf_item_id = u16::from_le_bytes([result_bytes[2], result_bytes[3]]);
    assert_eq!(cpf_item_id, CpfItemId::IdentityItem.into());

    let cpf_item_length = u16::from_le_bytes([result_bytes[4], result_bytes[5]]);
    assert_eq!(cpf_item_length, 38);

    let encapsulation_protocol_version = u16::from_le_bytes([result_bytes[6], result_bytes[7]]);
    assert_eq!(encapsulation_protocol_version, 1);

    let sin_family = u16::from_be_bytes([result_bytes[8], result_bytes[9]]);
    assert_eq!(sin_family, 2);

    let sin_port = u16::from_be_bytes([result_bytes[10], result_bytes[11]]);
    assert_eq!(sin_port, 0xAF12);

    let sin_addr = u32::from_be_bytes([
        result_bytes[12],
        result_bytes[13],
        result_bytes[14],
        result_bytes[15],
    ]);
    assert_eq!(sin_addr, 0xC0A8_000A);

    let sin_zero = &result_bytes[16..24];
    assert_eq!(sin_zero, &[0; 8]);

    let vendor_id = u16::from_le_bytes([result_bytes[24], result_bytes[25]]);
    assert_eq!(vendor_id, identity_info.vendor_id);

    let device_type = u16::from_le_bytes([result_bytes[26], result_bytes[27]]);
    assert_eq!(device_type, identity_info.device_type);

    let product_code = u16::from_le_bytes([result_bytes[28], result_bytes[29]]);
    assert_eq!(product_code, identity_info.product_code);

    let revision_major = result_bytes[30];
    assert_eq!(revision_major, identity_info.revision_major);

    let revision_minor = result_bytes[31];
    assert_eq!(revision_minor, identity_info.revision_minor);

    let status = result_bytes[32];
    assert_eq!(status, 0x00);

    let serial_number = u32::from_le_bytes([
        result_bytes[34],
        result_bytes[35],
        result_bytes[36],
        result_bytes[37],
    ]);
    assert_eq!(serial_number, identity_info.serial_number);

    let name_length = result_bytes[38];
    assert_eq!(name_length, identity_info.product_name.len() as u8);
    assert_eq!(&result_bytes[39..43], identity_info.product_name.as_bytes());

    let state = result_bytes[43];
    assert_eq!(state, 0x00);
    assert_eq!(result_bytes.len(), 44);
}

#[test]
fn list_identity_fails_when_registry_is_empty() {
    let empty_registry = Registry::new();
    let mut buffer = BytesMut::new();
    let result = list_identity(&empty_registry, &mut buffer);
    assert!(result.is_err());
}

#[test]
fn list_identity_payload_is_exact_and_appended() {
    let instance = IdentityInstance::new(1, 0x0A0B, 0x0C0D, 0x0E0F, 3, 4, 0x1112, 0x13141516, "Ab", 0x17);
    let mut class_for_kind = IdentityClass::new(&IdentityInfo {
        vendor_id: 0x0A0B,
        device_type: 0x0C0D,
        product_code: 0x0E0F,
        revision_major: 3,
        revision_minor: 4,
        serial_number: 0x13141516,
        product_name: "Ab",
    });
    assert!(class_for_kind.add_instance(instance.into_handle()).is_err());
    let registry = registry_with(CipClassHandle::Identity(class_for_kind), [10, 20, 30, 40]);
    let mut buffer = BytesMut::new();
    buffer.put_slice(&[0xF0, 0xF1, 0xF2]);
    list_identity(&registry, &mut buffer).expect("both objects are there");
    let expected: Vec<u8> = vec![
        0xF0, 0xF1, 0xF2, // what the buffer held
        1, 0, // item count
        0x0C, 0x00, // identity item
        36, 0, // item length
        1, 0, // protocol version
        0, 2, // family, network byte order
        0xAF, 0x12, // port, network byte order
        10, 20, 30, 40, // address
        0, 0, 0, 0, 0, 0, 0, 0, // padding
        0x0B, 0x0A, // vendor id
        0x0D, 0x0C, // device type
        0x0F, 0x0E, // product code
        3, 4, // revision
        0, 0, // status
        0x16, 0x15, 0x14, 0x13, // serial number
        2, b'A', b'b', // product name
        0, // state
    ];
    assert_eq!(&buffer[..], &expected[..]);
}

#[test]
fn list_identity_reports_the_first_lookup_that_fails() {
    let empty = Registry::new();
    let mut buffer = BytesMut::new();
    buffer.put_u8(0x42);
    match list_identity(&empty, &mut buffer) {
        Err(InternalError::Other(message)) => {
            assert_eq!(message, "Class 1: Identity Class not found")
        }
        other => panic!("unexpected result: {:?}", other),
    }
    assert_eq!(&buffer[..], &[0x42]);

    let mut identity_only = Registry::new();
    identity_only.register(CipClassHandle::Identity(IdentityClass::new(&IdentityInfo {
        vendor_id: 0,
        device_type: 0,
        product_code: 0,
        revision_major: 0,
        revision_minor: 0,
        serial_number: 0,
        product_name: "n",
    })));
    match list_identity(&identity_only, &mut buffer) {
        Err(InternalError::Other(message)) => {
            assert_eq!(message, "Class 2: TCP/IP Interface Class not found")
        }
        other => panic!("unexpected result: {:?}", other),
    }

    identity_only.register(CipClassHandle::TcpIpInterface(TcpIpInterfaceClass::new()));
    match list_identity(&identity_only, &mut buffer) {
        Err(InternalError::Other(message)) => {
            assert_eq!(message, "Instance 1 for class 2: TCP/IP Interface Class not found")
        }
        other => panic!("unexpected result: {:?}", other),
    }
    assert_eq!(&buffer[..], &[0x42]);
}

#[test]
fn list_identity_name_length_byte() {
    let name_255: &'static str = Box::leak("n".repeat(255).into_boxed_str());
    let name_256: &'static str = Box::leak("m".repeat(256).into_boxed_str());
    let info = IdentityInfo {
        vendor_id: 0,
        device_type: 0,
        product_code: 0,
        revision_major: 0,
        revision_minor: 0,
        serial_number: 0,
        product_name: name_255,
    };
    let registry = registry_with(CipClassHandle::Identity(IdentityClass::new(&info)), [1, 1, 1, 1]);
    let mut buffer = BytesMut::new();
    list_identity(&registry, &mut buffer).expect("payload");
    assert_eq!(buffer.len(), 40 + 255);
    assert_eq!(u16::from_le_bytes([buffer[4], buffer[5]]), 34 + 255);
    assert_eq!(buffer[38], 255);
    assert_eq!(&buffer[39..39 + 255], name_255.as_bytes());

    let info = IdentityInfo { product_name: name_256, ..info };
    let registry = registry_with(CipClassHandle::Identity(IdentityClass::new(&info)), [1, 1, 1, 1]);
    let mut buffer = BytesMut::new();
    list_identity(&registry, &mut buffer).expect("payload");
    assert_eq!(buffer.len(), 40 + 256);
    assert_eq!(u16::from_le_bytes([buffer[4], buffer[5]]), 34 + 256);
    assert_eq!(buffer[38], 0);
    assert_eq!(&buffer[39..39 + 256], name_256.as_bytes());
}
