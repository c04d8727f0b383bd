//! What a class and an instance can do, and the handles under which the
//! registry holds objects of any kind.

use crate::cip::cip_error::CipError;
use crate::cip::cip_identity::{IdentityClass, IdentityInstance};
use crate::cip::tcp_ip_interface::{TcpIpInterfaceClass, TcpIpInterfaceInstance};
use vstd::prelude::*;

verus! {

/// An instance of any kind. The kind is the variant: a concrete instance is
/// recovered from a handle by `CipInstance::downcast`, which looks at it.
#[derive(Debug)]
pub enum CipInstanceHandle {
    Identity(IdentityInstance),
    TcpIpInterface(TcpIpInterfaceInstance),
}

/// A class of any kind.
#[derive(Debug)]
pub enum CipClassHandle {
    Identity(IdentityClass),
    TcpIpInterface(TcpIpInterfaceClass),
}

/// A class: it has an id and a name, and owns instances that are found by
/// their instance id.
pub trait CipClass {
    /// The class id.
    spec fn id(&self) -> u16;

    /// The display name.
    spec fn name(&self) -> Seq<char>;

    /// The instances that the class owns, in the order of their ids.
    spec fn instances(&self) -> Seq<CipInstanceHandle>;

    /// What looking up `instance_id` gives.
    spec fn lookup(&self, instance_id: u16) -> Result<CipInstanceHandle, CipError>;

    /// What registering `instance` gives: the instances owned afterwards,
    /// or the refusal.
    spec fn registered(&self, instance: CipInstanceHandle) -> Result<
        Seq<CipInstanceHandle>,
        CipError,
    >;

    /// The class id.
    fn class_id(&self) -> (r: u16)
        ensures
            r == self.id(),
    ;

    /// The display name.
    fn class_name(&self) -> (r: &'static str)
        ensures
            r@ == self.name(),
    ;

    /// The instance with the id `instance_id`, or why there is none.
    fn instance(&self, instance_id: u16) -> (r: Result<&CipInstanceHandle, CipError>)
        ensures
            match r {
                Ok(h) => self.lookup(instance_id) == Ok::<CipInstanceHandle, CipError>(*h),
                Err(e) => self.lookup(instance_id) == Err::<CipInstanceHandle, CipError>(e),
            },
    ;

    /// Registers `instance` with the class, which then owns it; a class
    /// that refuses is left as it was.
    fn add_instance(&mut self, instance: CipInstanceHandle) -> (r: Result<(), CipError>)
        ensures
            final(self).id() == old(self).id(),
            final(self).name() == old(self).name(),
            match r {
                Ok(()) => old(self).registered(instance) == Ok::<Seq<CipInstanceHandle>, CipError>(
                    final(self).instances(),
                ),
                Err(e) => old(self).registered(instance) == Err::<Seq<CipInstanceHandle>, CipError>(
                    e,
                ) && final(self).instances() == old(self).instances(),
            },
    ;
}

/// An instance: it knows the class that owns it, by id, and converts to and
/// from the handle of any kind.
pub trait CipInstance: Sized {
    /// The id of the owning class.
    spec fn owner(&self) -> u16;

    /// The instance of this kind that a handle holds, if it is of this kind.
    spec fn recovered(handle: CipInstanceHandle) -> Option<Self>;

    /// The id of the class that owns the instance.
    fn class(&self) -> (r: u16)
        ensures
            r == self.owner(),
    ;

    /// The instance of this kind in `handle`, or `None` for a handle of
    /// another kind.
    fn downcast(handle: &CipInstanceHandle) -> (r: Option<&Self>)
        ensures
            match r {
                Some(x) => Self::recovered(*handle) == Some(*x),
                None => Self::recovered(*handle) is None,
            },
    ;

    /// The instance as a handle of any kind.
    fn into_handle(self) -> (h: CipInstanceHandle)
        ensures
            Self::recovered(h) == Some(self),
    ;
}

impl CipClass for CipClassHandle {
    open spec fn id(&self) -> u16 {
        match self {
            CipClassHandle::Identity(c) => c.id(),
            CipClassHandle::TcpIpInterface(c) => c.id(),
        }
    }

    open spec fn name(&self) -> Seq<char> {
        match self {
            CipClassHandle::Identity(c) => c.name(),
            CipClassHandle::TcpIpInterface(c) => c.name(),
        }
    }

    open spec fn instances(&self) -> Seq<CipInstanceHandle> {
        match self {
            CipClassHandle::Identity(c) => c.instances(),
            CipClassHandle::TcpIpInterface(c) => c.instances(),
        }
    }

    open spec fn lookup(&self, instance_id: u16) -> Result<CipInstanceHandle, CipError> {
        match self {
            CipClassHandle::Identity(c) => c.lookup(instance_id),
            CipClassHandle::TcpIpInterface(c) => c.lookup(instance_id),
        }
    }

    open spec fn registered(&self, instance: CipInstanceHandle) -> Result<
        Seq<CipInstanceHandle>,
        CipError,
    > {
        match self {
            CipClassHandle::Identity(c) => c.registered(instance),
            CipClassHandle::TcpIpInterface(c) => c.registered(instance),
        }
    }

    fn class_id(&self) -> (r: u16) {
        match self {
            CipClassHandle::Identity(c) => c.class_id(),
            CipClassHandle::TcpIpInterface(c) => c.class_id(),
        }
    }

    fn class_name(&self) -> (r: &'static str) {
        match self {
            CipClassHandle::Identity(c) => c.class_name(),
            CipClassHandle::TcpIpInterface(c) => c.class_name(),
        }
    }

    fn instance(&self, instance_id: u16) -> (r: Result<&CipInstanceHandle, CipError>) {
        match self {
            CipClassHandle::Identity(c) => c.instance(instance_id),
            CipClassHandle::TcpIpInterface(c) => c.instance(instance_id),
        }
    }

    /// The kind of the class stays what it was.
    fn add_instance(&mut self, instance: CipInstanceHandle) -> (r: Result<(), CipError>)
        ensures
            *old(self) is Identity <==> *final(self) is Identity,
    {
        match self {
            CipClassHandle::Identity(c) => c.add_instance(instance),
            CipClassHandle::TcpIpInterface(c) => c.add_instance(instance),
        }
    }
}

} // verus!
