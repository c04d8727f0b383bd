use rs_eip_adapter::cip::cip_class::{CipClass, CipClassHandle, CipInstance, CipInstanceHandle};
use rs_eip_adapter::cip::cip_error::CipError;
use rs_eip_adapter::cip::cip_identity::{IdentityClass, IdentityInfo, IdentityInstance};
use rs_eip_adapter::cip::registry::Registry;
use rs_eip_adapter::cip::tcp_ip_interface::{TcpIpInterfaceClass, TcpIpInterfaceInstance};
use rs_eip_adapter::cip::CipClassId;

#[test]
fn register_and_get_class_by_id() {
    let mut registry = Registry::new();
    let identity_class_id = CipClassId::IdentityClassId.to_u16();
    let identity_info = IdentityInfo {
        vendor_id: 0x1111,
        device_type: 0x2222,
        product_code: 0x3333,
        revision_major: 1,
        revision_minor: 0,
        serial_number: 0xDEAD_BEEF,
        product_name: "DeviceA",
    };
    let identity_class = IdentityClass::new(&identity_info);
    registry.register(CipClassHandle::Identity(identity_class));

    let retrieved_class = registry
        .get(identity_class_id)
        .expect("class should be present");

    assert_eq!(retrieved_class.class_id(), identity_class_id);
    assert_eq!(retrieved_class.class_name(), "Identity");
}

#[test]
fn register_and_get_identity_instance_success() {
    let mut registry = Registry::new();
    let identity_info = IdentityInfo {
        vendor_id: 0x1234,
        device_type: 0x5678,
        product_code: 0x9ABC,
        revision_major: 1,
        revision_minor: 2,
        serial_number: 0xDEADBEEF,
        product_name: "TestDevice",
    };
    let identity_class = IdentityClass::new(&identity_info);
    registry.register(CipClassHandle::Identity(identity_class));

    let identity_instance = registry
        .get_instance::<IdentityInstance>(CipClassId::IdentityClassId, 1)
        .expect("expected identity instance");

    assert_eq!(identity_instance.vendor_id, identity_info.vendor_id);
    assert_eq!(identity_instance.product_name, identity_info.product_name);
}

#[test]
fn get_instance_missing_class_returns_error() {
    let registry = Registry::new();

    let error_message = registry
        .get_instance::<IdentityInstance>(CipClassId::IdentityClassId, 1)
        .unwrap_err();

    assert!(error_message.contains("not found"));
}

#[test]
fn get_instance_missing_instance_returns_error() {
    let mut registry = Registry::new();
    let identity_info = IdentityInfo {
        vendor_id: 0x0001,
        device_type: 0x0002,
        product_code: 0x0003,
        revision_major: 0,
        revision_minor: 0,
        serial_number: 0,
        product_name: "X",
    };
    let identity_class = IdentityClass::new(&identity_info);
    registry.register(CipClassHandle::Identity(identity_class));

    let error_message = registry
        .get_instance::<IdentityInstance>(CipClassId::IdentityClassId, 2)
        .unwrap_err();

    assert!(error_message.contains("Instance"));
}

#[test]
fn get_instance_downcast_failure_returns_error() {
    let mut registry = Registry::new();
    let mut tcp_class = TcpIpInterfaceClass::new();
    let tcp_instance = TcpIpInterfaceInstance::new(tcp_class.class_id(), [127, 0, 0, 1]);
    tcp_class.add_instance(tcp_instance.into_handle()).unwrap();
    registry.register(CipClassHandle::TcpIpInterface(tcp_class));

    let error_message = registry
        .get_instance::<IdentityInstance>(CipClassId::TcpIpInterfaceClassId, 1)
        .unwrap_err();

    assert!(error_message.contains("downcast"));
}

#[test]
fn get_instance_messages_are_exact() {
    let mut registry = Registry::new();
    assert_eq!(
        registry
            .get_instance::<IdentityInstance>(CipClassId::IdentityClassId, 1)
            .unwrap_err(),
        "Class 1: Identity Class not found"
    );
    assert_eq!(
        registry
            .get_instance::<TcpIpInterfaceInstance>(CipClassId::UserDefinedClassId(65535), 7)
            .unwrap_err(),
        "Class 65535: User Defined Class not found"
    );
    let mut tcp_class = TcpIpInterfaceClass::new();
    let tcp_instance = TcpIpInterfaceInstance::new(tcp_class.class_id(), [10, 0, 0, 1]);
    tcp_class.add_instance(tcp_instance.into_handle()).unwrap();
    registry.register(CipClassHandle::TcpIpInterface(tcp_class));
    assert_eq!(
        registry
            .get_instance::<TcpIpInterfaceInstance>(CipClassId::TcpIpInterfaceClassId, 300)
            .unwrap_err(),
        "Instance 300 for class 2: TCP/IP Interface Class not found"
    );
    assert_eq!(
        registry
            .get_instance::<TcpIpInterfaceInstance>(CipClassId::TcpIpInterfaceClassId, 0)
            .unwrap_err(),
        "Instance 0 for class 2: TCP/IP Interface Class not found"
    );
    assert_eq!(
        registry
            .get_instance::<IdentityInstance>(CipClassId::TcpIpInterfaceClassId, 1)
            .unwrap_err(),
        "Failed to downcast class 2: TCP/IP Interface Class to requested type"
    );
    let found = registry
        .get_instance::<TcpIpInterfaceInstance>(CipClassId::TcpIpInterfaceClassId, 1)
        .expect("the instance is there");
    assert_eq!(found.sin_addr(), [10, 0, 0, 1]);
    assert_eq!(found.class(), 2);
}

#[test]
fn register_replaces_the_class_under_the_same_id() {
    let mut registry = Registry::new();
    let first = IdentityInfo {
        vendor_id: 1,
        device_type: 0,
        product_code: 0,
        revision_major: 0,
        revision_minor: 0,
        serial_number: 0,
        product_name: "first",
    };
    let second = IdentityInfo { vendor_id: 2, product_name: "second", ..first };
    registry.register(CipClassHandle::Identity(IdentityClass::new(&first)));
    registry.register(CipClassHandle::Identity(IdentityClass::new(&second)));
    let instance = registry
        .get_instance::<IdentityInstance>(CipClassId::IdentityClassId, 1)
        .expect("identity");
    assert_eq!(instance.vendor_id, 2);
    assert_eq!(instance.product_name, "second");
    assert!(registry.get(2).is_none());
    assert!(registry.get(1).is_some());
}

#[test]
fn identity_class_is_a_singleton() {
    let info = IdentityInfo {
        vendor_id: 7,
        device_type: 8,
        product_code: 9,
        revision_major: 3,
        revision_minor: 4,
        serial_number: 0x01020304,
        product_name: "Singleton",
    };
    let mut class = IdentityClass::new(&info);
    assert_eq!(class.class_id(), 1);
    assert_eq!(class.instance(0).unwrap_err(), CipError::ObjectDoesNotExist);
    assert_eq!(class.instance(2).unwrap_err(), CipError::ObjectDoesNotExist);
    let extra = TcpIpInterfaceInstance::new(1, [1, 2, 3, 4]).into_handle();
    assert_eq!(class.add_instance(extra).unwrap_err(), CipError::ObjectStateConflict);
    match class.instance(1).expect("instance 1") {
        CipInstanceHandle::Identity(instance) => {
            assert_eq!(instance.class(), 1);
            assert_eq!(instance.vendor_id, 7);
            assert_eq!(instance.device_type, 8);
            assert_eq!(instance.product_code, 9);
            assert_eq!(instance.revision_major, 3);
            assert_eq!(instance.revision_minor, 4);
            assert_eq!(instance.status, 0);
            assert_eq!(instance.serial_number, 0x01020304);
            assert_eq!(instance.product_name, "Singleton");
            assert_eq!(instance.state, 0);
        }
        CipInstanceHandle::TcpIpInterface(_) => panic!("wrong kind"),
    }
}

#[test]
fn tcp_ip_interface_instances_are_found_by_one_based_index() {
    let mut class = TcpIpInterfaceClass::new();
    assert_eq!(class.class_id(), 2);
    assert_eq!(class.class_name(), "TcpIpInterfaceClass");
    assert_eq!(class.instance(0).unwrap_err(), CipError::GeneralError);
    assert_eq!(class.instance(1).unwrap_err(), CipError::ObjectDoesNotExist);
    class
        .add_instance(TcpIpInterfaceInstance::new(2, [10, 0, 0, 1]).into_handle())
        .expect("first");
    class
        .add_instance(TcpIpInterfaceInstance::new(2, [10, 0, 0, 2]).into_handle())
        .expect("second");
    let first = TcpIpInterfaceInstance::downcast(class.instance(1).expect("1")).expect("kind");
    let second = TcpIpInterfaceInstance::downcast(class.instance(2).expect("2")).expect("kind");
    assert_eq!(first.sin_addr(), [10, 0, 0, 1]);
    assert_eq!(second.sin_addr(), [10, 0, 0, 2]);
    assert_eq!(class.instance(3).unwrap_err(), CipError::ObjectDoesNotExist);
    assert!(IdentityInstance::downcast(class.instance(1).expect("1")).is_none());
    assert_eq!(first.sin_family(), 2);
    assert_eq!(first.sin_port(), 0xAF12);
    assert_eq!(first.sin_zero(), [0u8; 8]);
}

#[test]
fn class_ids_and_their_codes() {
    assert_eq!(CipClassId::IdentityClassId.to_u16(), 0x01);
    assert_eq!(CipClassId::TcpIpInterfaceClassId.to_u16(), 0x02);
    assert_eq!(CipClassId::UserDefinedClassId(0x1234).to_u16(), 0x1234);
    assert!(matches!(CipClassId::from_u16(1), Some(CipClassId::IdentityClassId)));
    assert!(matches!(CipClassId::from_u16(2), Some(CipClassId::TcpIpInterfaceClassId)));
    assert!(matches!(CipClassId::from_u16(0xF5), Some(CipClassId::UserDefinedClassId(0xF5))));
    assert_eq!(CipClassId::IdentityClassId.describe(), "1: Identity Class");
    assert_eq!(CipClassId::TcpIpInterfaceClassId.describe(), "2: TCP/IP Interface Class");
    assert_eq!(CipClassId::UserDefinedClassId(100).describe(), "100: User Defined Class");
}

#[test]
fn cip_error_codes() {
    assert_eq!(u8::from(CipError::Success), 0x00);
    assert_eq!(u8::from(CipError::ObjectStateConflict), 0x0C);
    assert_eq!(u8::from(CipError::ObjectDoesNotExist), 0x16);
    assert_eq!(u8::from(CipError::InvalidReplyReceived), 0x22);
    assert_eq!(u8::from(CipError::KeyFailureInPath), 0x25);
    assert_eq!(u8::from(CipError::Group2OnlyServerGeneralFailure), 0x2A);
    assert_eq!(u8::from(CipError::AttributeNotGettable), 0x2C);
    assert_eq!(CipError::GeneralError.to_u8(), 0xFF);
}
