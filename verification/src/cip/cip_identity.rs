//! The Identity object: the class that describes the device itself, with
//! its one instance.

use crate::cip::cip_class::{CipClass, CipInstance, CipInstanceHandle};
use crate::cip::cip_error::CipError;
use crate::cip::CipClassId;
use vstd::prelude::*;

verus! {

/// What a device says of itself, as given when the stack is built.
#[derive(Debug, Clone, Copy)]
pub struct IdentityInfo {
    pub vendor_id: u16,
    pub device_type: u16,
    pub product_code: u16,
    pub revision_major: u8,
    pub revision_minor: u8,
    pub serial_number: u32,
    pub product_name: &'static str,
}

/// The one instance of the Identity class. `class` is the id of the class
/// that owns it.
#[derive(Debug)]
pub struct IdentityInstance {
    pub class: u16,
    pub vendor_id: u16,
    pub device_type: u16,
    pub product_code: u16,
    pub revision_major: u8,
    pub revision_minor: u8,
    pub status: u16,
    pub serial_number: u32,
    pub product_name: String,
    pub state: u8,
}

impl IdentityInstance {
    /// An identity with these attributes, owned by the class with the id
    /// `class`.
    pub fn new(
        class: u16,
        vendor_id: u16,
        device_type: u16,
        product_code: u16,
        revision_major: u8,
        revision_minor: u8,
        status: u16,
        serial_number: u32,
        product_name: &str,
        state: u8,
    ) -> (r: Self)
        ensures
            r.class == class,
            r.vendor_id == vendor_id,
            r.device_type == device_type,
            r.product_code == product_code,
            r.revision_major == revision_major,
            r.revision_minor == revision_minor,
            r.status == status,
            r.serial_number == serial_number,
            r.product_name@ == product_name@,
            r.state == state,
    {
        Self {
            class,
            vendor_id,
            device_type,
            product_code,
            revision_major,
            revision_minor,
            status,
            serial_number,
            product_name: product_name.to_owned(),
            state,
        }
    }
}

impl CipInstance for IdentityInstance {
    open spec fn owner(&self) -> u16 {
        self.class
    }

    open spec fn recovered(handle: CipInstanceHandle) -> Option<Self> {
        match handle {
            CipInstanceHandle::Identity(i) => Some(i),
            _ => None,
        }
    }

    fn class(&self) -> (r: u16) {
        self.class
    }

    fn downcast(handle: &CipInstanceHandle) -> (r: Option<&Self>) {
        match handle {
            CipInstanceHandle::Identity(i) => Some(i),
            _ => None,
        }
    }

    fn into_handle(self) -> (h: CipInstanceHandle) {
        CipInstanceHandle::Identity(self)
    }
}

/// The Identity class. It is a singleton: its one instance is made with the
/// class and has the instance id 1; no other can be added.
#[derive(Debug)]
pub struct IdentityClass {
    class_id: u16,
    class_name: &'static str,
    instance: CipInstanceHandle,
}

impl IdentityClass {
    /// The instance of the class.
    pub closed spec fn identity(&self) -> IdentityInstance {
        self.instance->Identity_0
    }

    /// The class with its instance filled from `info`: status and state are
    /// 0, and the instance points back at the class.
    pub fn new(info: &IdentityInfo) -> (r: Self)
        ensures
            r.id() == CipClassId::IdentityClassId.code(),
            r.name() == "Identity"@,
            r.instances() == seq![CipInstanceHandle::Identity(r.identity())],
            r.identity().class == r.id(),
            r.identity().vendor_id == info.vendor_id,
            r.identity().device_type == info.device_type,
            r.identity().product_code == info.product_code,
            r.identity().revision_major == info.revision_major,
            r.identity().revision_minor == info.revision_minor,
            r.identity().status == 0,
            r.identity().serial_number == info.serial_number,
            r.identity().product_name@ == info.product_name@,
            r.identity().state == 0,
    {
        let class_id: u16 = CipClassId::IdentityClassId.to_u16();
        let inst = IdentityInstance::new(
            class_id,
            info.vendor_id,
            info.device_type,
            info.product_code,
            info.revision_major,
            info.revision_minor,
            0,
            info.serial_number,
            info.product_name,
            0,
        );
        Self { class_id, class_name: "Identity", instance: CipInstanceHandle::Identity(inst) }
    }
}

impl CipClass for IdentityClass {
    closed spec fn id(&self) -> u16 {
        self.class_id
    }

    closed spec fn name(&self) -> Seq<char> {
        self.class_name@
    }

    closed spec fn instances(&self) -> Seq<CipInstanceHandle> {
        seq![self.instance]
    }

    /// Only the instance id 1 exists.
    open spec fn lookup(&self, instance_id: u16) -> Result<CipInstanceHandle, CipError> {
        if instance_id != 1 {
            Err(CipError::ObjectDoesNotExist)
        } else {
            Ok(self.instances()[0])
        }
    }

    /// The class takes no further instance.
    open spec fn registered(&self, instance: CipInstanceHandle) -> Result<
        Seq<CipInstanceHandle>,
        CipError,
    > {
        Err(CipError::ObjectStateConflict)
    }

    fn class_id(&self) -> (r: u16) {
        self.class_id
    }

    fn class_name(&self) -> (r: &'static str) {
        self.class_name
    }

    fn instance(&self, instance_id: u16) -> (r: Result<&CipInstanceHandle, CipError>) {
        if instance_id != 1 {
            return Err(CipError::ObjectDoesNotExist);
        }
        Ok(&self.instance)
    }

    fn add_instance(&mut self, _instance: CipInstanceHandle) -> (r: Result<(), CipError>)
        ensures
            *final(self) == *old(self),
    {
        Err(CipError::ObjectStateConflict)
    }
}

} // verus!
