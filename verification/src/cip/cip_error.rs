//! The general status codes of CIP.

use vstd::prelude::*;

verus! {

/// A general status of a CIP service.
#[derive(Debug, Clone, Copy, PartialEq, Eq, Structural)]
pub enum CipError {
    Success,
    ConnectionFailure,
    ResourceUnavailable,
    InvalidParameterValue,
    PathSegmentError,
    PathDestinationUnknown,
    PartialTransfer,
    ConnectionLost,
    ServiceNotSupported,
    InvalidAttributeValue,
    AttributeListError,
    AlreadyInRequestedMode,
    ObjectStateConflict,
    ObjectAlreadyExists,
    AttributeNotSetable,
    PrivilegeViolation,
    DeviceStateConflict,
    ReplyDataTooLarge,
    FragmentationOfAPrimitiveValue,
    NotEnoughData,
    AttributeNotSupported,
    TooMuchData,
    ObjectDoesNotExist,
    ServiceFragmentationSequenceNotInProgress,
    NoStoredAttributeData,
    StoreOperationFailure,
    RoutingFailureRequestPacketTooLarge,
    RoutingFailureResponsePacketTooLarge,
    MissingAttributeListEntry,
    InvalidAttributeValueList,
    EmbeddedServiceError,
    VendorSpecificError,
    InvalidParameter,
    WriteonceValueOrMediumAlreadyWritten,
    InvalidReplyReceived,
    KeyFailureInPath,
    PathSizeInvalid,
    UnexpectedAttributeInList,
    InvalidMemberId,
    MemberNotSetable,
    Group2OnlyServerGeneralFailure,
    AttributeNotGettable,
    GeneralError,
}

impl CipError {
    /// The 8-bit status code.
    pub open spec fn code(self) -> u8 {
        match self {
            CipError::Success => 0x00,
            CipError::ConnectionFailure => 0x01,
            CipError::ResourceUnavailable => 0x02,
            CipError::InvalidParameterValue => 0x03,
            CipError::PathSegmentError => 0x04,
            CipError::PathDestinationUnknown => 0x05,
            CipError::PartialTransfer => 0x06,
            CipError::ConnectionLost => 0x07,
            CipError::ServiceNotSupported => 0x08,
            CipError::InvalidAttributeValue => 0x09,
            CipError::AttributeListError => 0x0A,
            CipError::AlreadyInRequestedMode => 0x0B,
            CipError::ObjectStateConflict => 0x0C,
            CipError::ObjectAlreadyExists => 0x0D,
            CipError::AttributeNotSetable => 0x0E,
            CipError::PrivilegeViolation => 0x0F,
            CipError::DeviceStateConflict => 0x10,
            CipError::ReplyDataTooLarge => 0x11,
            CipError::FragmentationOfAPrimitiveValue => 0x12,
            CipError::NotEnoughData => 0x13,
            CipError::AttributeNotSupported => 0x14,
            CipError::TooMuchData => 0x15,
            CipError::ObjectDoesNotExist => 0x16,
            CipError::ServiceFragmentationSequenceNotInProgress => 0x17,
            CipError::NoStoredAttributeData => 0x18,
            CipError::StoreOperationFailure => 0x19,
            CipError::RoutingFailureRequestPacketTooLarge => 0x1A,
            CipError::RoutingFailureResponsePacketTooLarge => 0x1B,
            CipError::MissingAttributeListEntry => 0x1C,
            CipError::InvalidAttributeValueList => 0x1D,
            CipError::EmbeddedServiceError => 0x1E,
            CipError::VendorSpecificError => 0x1F,
            CipError::InvalidParameter => 0x20,
            CipError::WriteonceValueOrMediumAlreadyWritten => 0x21,
            CipError::InvalidReplyReceived => 0x22,
            CipError::KeyFailureInPath => 0x25,
            CipError::PathSizeInvalid => 0x26,
            CipError::UnexpectedAttributeInList => 0x27,
            CipError::InvalidMemberId => 0x28,
            CipError::MemberNotSetable => 0x29,
            CipError::Group2OnlyServerGeneralFailure => 0x2A,
            CipError::AttributeNotGettable => 0x2C,
            CipError::GeneralError => 0xFF,
        }
    }

    /// The 8-bit status code.
    pub fn to_u8(self) -> (r: u8)
        ensures
            r == self.code(),
    {
        match self {
            CipError::Success => 0x00,
            CipError::ConnectionFailure => 0x01,
            CipError::ResourceUnavailable => 0x02,
            CipError::InvalidParameterValue => 0x03,
            CipError::PathSegmentError => 0x04,
            CipError::PathDestinationUnknown => 0x05,
            CipError::PartialTransfer => 0x06,
            CipError::ConnectionLost => 0x07,
            CipError::ServiceNotSupported => 0x08,
            CipError::InvalidAttributeValue => 0x09,
            CipError::AttributeListError => 0x0A,
            CipError::AlreadyInRequestedMode => 0x0B,
            CipError::ObjectStateConflict => 0x0C,
            CipError::ObjectAlreadyExists => 0x0D,
            CipError::AttributeNotSetable => 0x0E,
            CipError::PrivilegeViolation => 0x0F,
            CipError::DeviceStateConflict => 0x10,
            CipError::ReplyDataTooLarge => 0x11,
            CipError::FragmentationOfAPrimitiveValue => 0x12,
            CipError::NotEnoughData => 0x13,
            CipError::AttributeNotSupported => 0x14,
            CipError::TooMuchData => 0x15,
            CipError::ObjectDoesNotExist => 0x16,
            CipError::ServiceFragmentationSequenceNotInProgress => 0x17,
            CipError::NoStoredAttributeData => 0x18,
            CipError::StoreOperationFailure => 0x19,
            CipError::RoutingFailureRequestPacketTooLarge => 0x1A,
            CipError::RoutingFailureResponsePacketTooLarge => 0x1B,
            CipError::MissingAttributeListEntry => 0x1C,
            CipError::InvalidAttributeValueList => 0x1D,
            CipError::EmbeddedServiceError => 0x1E,
            CipError::VendorSpecificError => 0x1F,
            CipError::InvalidParameter => 0x20,
            CipError::WriteonceValueOrMediumAlreadyWritten => 0x21,
            CipError::InvalidReplyReceived => 0x22,
            CipError::KeyFailureInPath => 0x25,
            CipError::PathSizeInvalid => 0x26,
            CipError::UnexpectedAttributeInList => 0x27,
            CipError::InvalidMemberId => 0x28,
            CipError::MemberNotSetable => 0x29,
            CipError::Group2OnlyServerGeneralFailure => 0x2A,
            CipError::AttributeNotGettable => 0x2C,
            CipError::GeneralError => 0xFF,
        }
    }
}

impl From<CipError> for u8 {
    fn from(value: CipError) -> (r: u8) {
        value.to_u8()
    }
}

impl vstd::std_specs::convert::FromSpecImpl<CipError> for u8 {
    open spec fn obeys_from_spec() -> bool {
        true
    }

    open spec fn from_spec(value: CipError) -> u8 {
        value.code()
    }
}

} // verus!
