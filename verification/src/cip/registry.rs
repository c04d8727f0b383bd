//! The registry: the classes of the device, each under its class id.

use crate::cip::cip_class::{CipClass, CipClassHandle, CipInstance};
use crate::cip::CipClassId;
use crate::text::{decimal, decimal_string};
use std::collections::HashMap;
use vstd::prelude::*;
use vstd::string::StringExecFns;

verus! {

/// How the search for an instance of kind `T` ends: at one of three
/// failures, or with the instance.
pub enum Resolution<T> {
    ClassMissing,
    InstanceMissing,
    KindMismatch,
    Found(T),
}

/// The message for a class id that is not registered.
pub open spec fn class_missing_text(class_id: CipClassId) -> Seq<char> {
    "Class "@ + class_id.label() + " not found"@
}

/// The message for an instance id that the class does not have.
pub open spec fn instance_missing_text(class_id: CipClassId, instance_id: u16) -> Seq<char> {
    "Instance "@ + decimal(instance_id as nat) + " for class "@ + class_id.label() + " not found"@
}

/// The message for an instance that is not of the kind asked for.
pub open spec fn kind_mismatch_text(class_id: CipClassId) -> Seq<char> {
    "Failed to downcast class "@ + class_id.label() + " to requested type"@
}

/// The message with which a search that failed is reported.
pub open spec fn failure_text<T>(outcome: Resolution<T>, class_id: CipClassId, instance_id: u16) -> Seq<
    char,
> {
    match outcome {
        Resolution::ClassMissing => class_missing_text(class_id),
        Resolution::InstanceMissing => instance_missing_text(class_id, instance_id),
        Resolution::KindMismatch => kind_mismatch_text(class_id),
        Resolution::Found(_) => Seq::<char>::empty(),
    }
}

/// The classes of the device, each under its class id. Its view is the
/// map from class id to class.
pub struct Registry {
    classes: HashMap<u16, CipClassHandle>,
}

impl View for Registry {
    type V = Map<u16, CipClassHandle>;

    closed spec fn view(&self) -> Map<u16, CipClassHandle> {
        self.classes@
    }
}

impl Registry {
    /// The three stages of finding instance `instance_id` of class
    /// `class_id` as a `T`: the class must be registered, it must have the
    /// instance, and the instance must be a `T`.
    pub open spec fn resolve<T: CipInstance>(&self, class_id: u16, instance_id: u16) -> Resolution<
        T,
    > {
        if !self@.contains_key(class_id) {
            Resolution::ClassMissing
        } else {
            match self@[class_id].lookup(instance_id) {
                Err(_) => Resolution::InstanceMissing,
                Ok(handle) => match T::recovered(handle) {
                    None => Resolution::KindMismatch,
                    Some(instance) => Resolution::Found(instance),
                },
            }
        }
    }

    /// A registry without classes.
    pub fn new() -> (r: Self)
        ensures
            r@ == Map::<u16, CipClassHandle>::empty(),
    {
        Self { classes: HashMap::new() }
    }

    /// Puts `class` under its own class id; a class that was there under
    /// that id is replaced.
    pub fn register(&mut self, class: CipClassHandle)
        ensures
            final(self)@ == old(self)@.insert(class.id(), class),
    {
        let id: u16 = class.class_id();
        self.classes.insert(id, class);
    }

    /// The class registered under `class_id`, if there is one.
    pub fn get(&self, class_id: u16) -> (r: Option<&CipClassHandle>)
        ensures
            match r {
                Some(class) => self@.contains_key(class_id) && *class == self@[class_id],
                None => !self@.contains_key(class_id),
            },
    {
        self.classes.get(&class_id)
    }

    /// Finds instance `instance_id` of class `class_id` and hands it out as
    /// a `T`. Each of the three stages fails with a message of its own.
    pub fn get_instance<T: CipInstance>(&self, class_id: CipClassId, instance_id: u16) -> (r:
        Result<&T, String>)
        ensures
            match r {
                Ok(instance) => self.resolve::<T>(class_id.code(), instance_id)
                    == Resolution::Found(*instance),
                Err(message) => {
                    &&& !(self.resolve::<T>(class_id.code(), instance_id) is Found)
                    &&& message@ == failure_text(
                        self.resolve::<T>(class_id.code(), instance_id),
                        class_id,
                        instance_id,
                    )
                },
            },
    {
        let class = match self.get(class_id.to_u16()) {
            Some(class) => class,
            None => {
                let mut message = String::from_str("Class ");
                message.append(class_id.describe().as_str());
                message.append(" not found");
                return Err(message);
            },
        };
        let handle = match class.instance(instance_id) {
            Ok(handle) => handle,
            Err(_) => {
                let mut message = String::from_str("Instance ");
                message.append(decimal_string(instance_id as u64).as_str());
                message.append(" for class ");
                message.append(class_id.describe().as_str());
                message.append(" not found");
                return Err(message);
            },
        };
        match T::downcast(handle) {
            Some(instance) => Ok(instance),
            None => {
                let mut message = String::from_str("Failed to downcast class ");
                message.append(class_id.describe().as_str());
                message.append(" to requested type");
                Err(message)
            },
        }
    }
}

} // verus!
