//! The service container: a seven-bit service code and a one-bit
//! request/response flag packed into a single byte.

use vstd::prelude::*;

verus! {

/// How many bytes one 16-bit word of a CIP path occupies on the wire.
pub const BYTES_IN_A_WORD: u16 = 2;

/// The size in bytes of an 8-bit CIP integer on the wire.
pub const SIZE_OF_CIP_USINT: usize = 1;

/// The size in bytes of a service container on the wire.
pub const SIZE_OF_SERVICE_CONTAINER: usize = 1;

/// The seven-bit CIP service code.  Unrecognized codes are carried through
/// in an `Unknown` variant rather than rejected, so that
/// forward-compatible peers can still route the message.
#[derive(Debug, Clone, Copy, PartialEq, Eq)]
pub enum ServiceCode {
    NoService,
    GetAttributeAll,
    SetAttributeAll,
    GetAttributeList,
    SetAttributeList,
    Reset,
    Start,
    Stop,
    CreateObjectInstance,
    DeleteObjectInstance,
    MultipleServicePacket,
    ApplyAttributes,
    GetAttributeSingle,
    SetAttributeSingle,
    FindNextObjectInstance,
    ErrorResponse,
    Restore,
    Save,
    NoOperation,
    GetMember,
    SetMember,
    InsertMember,
    RemoveMember,
    GroupSync,
    Unknown(u8),
}

impl ServiceCode {
    /// The raw seven-bit code.
    pub open spec fn spec_bits(self) -> u8 {
        match self {
            ServiceCode::NoService => 0x00,
            ServiceCode::GetAttributeAll => 0x01,
            ServiceCode::SetAttributeAll => 0x02,
            ServiceCode::GetAttributeList => 0x03,
            ServiceCode::SetAttributeList => 0x04,
            ServiceCode::Reset => 0x05,
            ServiceCode::Start => 0x06,
            ServiceCode::Stop => 0x07,
            ServiceCode::CreateObjectInstance => 0x08,
            ServiceCode::DeleteObjectInstance => 0x09,
            ServiceCode::MultipleServicePacket => 0x0A,
            ServiceCode::ApplyAttributes => 0x0D,
            ServiceCode::GetAttributeSingle => 0x0E,
            ServiceCode::SetAttributeSingle => 0x10,
            ServiceCode::FindNextObjectInstance => 0x11,
            ServiceCode::ErrorResponse => 0x14,
            ServiceCode::Restore => 0x15,
            ServiceCode::Save => 0x16,
            ServiceCode::NoOperation => 0x17,
            ServiceCode::GetMember => 0x18,
            ServiceCode::SetMember => 0x19,
            ServiceCode::InsertMember => 0x1A,
            ServiceCode::RemoveMember => 0x1B,
            ServiceCode::GroupSync => 0x1C,
            ServiceCode::Unknown(v) => v,
        }
    }

    /// Whether a seven-bit code names one of the known services.
    pub open spec fn spec_is_named(b: u8) -> bool {
        (b <= 0x0A) || (0x0D <= b <= 0x0E) || (0x10 <= b <= 0x11) || (0x14 <= b <= 0x1C)
    }

    /// The variant selected by a seven-bit code.
    pub open spec fn spec_from_bits(b: u8) -> ServiceCode {
        if b == 0x00 {
            ServiceCode::NoService
        } else if b == 0x01 {
            ServiceCode::GetAttributeAll
        } else if b == 0x02 {
            ServiceCode::SetAttributeAll
        } else if b == 0x03 {
            ServiceCode::GetAttributeList
        } else if b == 0x04 {
            ServiceCode::SetAttributeList
        } else if b == 0x05 {
            ServiceCode::Reset
        } else if b == 0x06 {
            ServiceCode::Start
        } else if b == 0x07 {
            ServiceCode::Stop
        } else if b == 0x08 {
            ServiceCode::CreateObjectInstance
        } else if b == 0x09 {
            ServiceCode::DeleteObjectInstance
        } else if b == 0x0A {
            ServiceCode::MultipleServicePacket
        } else if b == 0x0D {
            ServiceCode::ApplyAttributes
        } else if b == 0x0E {
            ServiceCode::GetAttributeSingle
        } else if b == 0x10 {
            ServiceCode::SetAttributeSingle
        } else if b == 0x11 {
            ServiceCode::FindNextObjectInstance
        } else if b == 0x14 {
            ServiceCode::ErrorResponse
        } else if b == 0x15 {
            ServiceCode::Restore
        } else if b == 0x16 {
            ServiceCode::Save
        } else if b == 0x17 {
            ServiceCode::NoOperation
        } else if b == 0x18 {
            ServiceCode::GetMember
        } else if b == 0x19 {
            ServiceCode::SetMember
        } else if b == 0x1A {
            ServiceCode::InsertMember
        } else if b == 0x1B {
            ServiceCode::RemoveMember
        } else if b == 0x1C {
            ServiceCode::GroupSync
        } else {
            ServiceCode::Unknown(b)
        }
    }

    /// The raw code fits in seven bits and an `Unknown` never shadows a
    /// named variant.
    pub open spec fn wf(self) -> bool {
        match self {
            ServiceCode::Unknown(v) => v < 128 && !ServiceCode::spec_is_named(v),
            _ => true,
        }
    }

    /// The raw seven-bit code.
    pub fn bits(&self) -> (r: u8)
        ensures
            r == self.spec_bits(),
            self.wf() ==> r < 128,
    {
        match self {
            ServiceCode::NoService => 0x00,
            ServiceCode::GetAttributeAll => 0x01,
            ServiceCode::SetAttributeAll => 0x02,
            ServiceCode::GetAttributeList => 0x03,
            ServiceCode::SetAttributeList => 0x04,
            ServiceCode::Reset => 0x05,
            ServiceCode::Start => 0x06,
            ServiceCode::Stop => 0x07,
            ServiceCode::CreateObjectInstance => 0x08,
            ServiceCode::DeleteObjectInstance => 0x09,
            ServiceCode::MultipleServicePacket => 0x0A,
            ServiceCode::ApplyAttributes => 0x0D,
            ServiceCode::GetAttributeSingle => 0x0E,
            ServiceCode::SetAttributeSingle => 0x10,
            ServiceCode::FindNextObjectInstance => 0x11,
            ServiceCode::ErrorResponse => 0x14,
            ServiceCode::Restore => 0x15,
            ServiceCode::Save => 0x16,
            ServiceCode::NoOperation => 0x17,
            ServiceCode::GetMember => 0x18,
            ServiceCode::SetMember => 0x19,
            ServiceCode::InsertMember => 0x1A,
            ServiceCode::RemoveMember => 0x1B,
            ServiceCode::GroupSync => 0x1C,
            ServiceCode::Unknown(v) => *v,
        }
    }

    /// The variant selected by a seven-bit code.
    pub fn from_bits(b: u8) -> (r: ServiceCode)
        requires
            b < 128,
        ensures
            r == ServiceCode::spec_from_bits(b),
            r.wf(),
    {
        if b == 0x00 {
            ServiceCode::NoService
        } else if b == 0x01 {
            ServiceCode::GetAttributeAll
        } else if b == 0x02 {
            ServiceCode::SetAttributeAll
        } else if b == 0x03 {
            ServiceCode::GetAttributeList
        } else if b == 0x04 {
            ServiceCode::SetAttributeList
        } else if b == 0x05 {
            ServiceCode::Reset
        } else if b == 0x06 {
            ServiceCode::Start
        } else if b == 0x07 {
            ServiceCode::Stop
        } else if b == 0x08 {
            ServiceCode::CreateObjectInstance
        } else if b == 0x09 {
            ServiceCode::DeleteObjectInstance
        } else if b == 0x0A {
            ServiceCode::MultipleServicePacket
        } else if b == 0x0D {
            ServiceCode::ApplyAttributes
        } else if b == 0x0E {
            ServiceCode::GetAttributeSingle
        } else if b == 0x10 {
            ServiceCode::SetAttributeSingle
        } else if b == 0x11 {
            ServiceCode::FindNextObjectInstance
        } else if b == 0x14 {
            ServiceCode::ErrorResponse
        } else if b == 0x15 {
            ServiceCode::Restore
        } else if b == 0x16 {
            ServiceCode::Save
        } else if b == 0x17 {
            ServiceCode::NoOperation
        } else if b == 0x18 {
            ServiceCode::GetMember
        } else if b == 0x19 {
            ServiceCode::SetMember
        } else if b == 0x1A {
            ServiceCode::InsertMember
        } else if b == 0x1B {
            ServiceCode::RemoveMember
        } else if b == 0x1C {
            ServiceCode::GroupSync
        } else {
            ServiceCode::Unknown(b)
        }
    }
}

/// One byte packing a seven-bit service code (low bits) and a one-bit
/// request/response flag (high bit).
#[derive(Debug, Clone, Copy, PartialEq, Eq)]
pub struct ServiceContainer {
    pub service: ServiceCode,
    pub response: bool,
}

impl ServiceContainer {
    /// The service code is well-formed.
    pub open spec fn wf(self) -> bool {
        self.service.wf()
    }

    /// The packed byte: service code in the low seven bits, response flag
    /// in the high bit.
    pub open spec fn spec_byte(self) -> u8 {
        (self.service.spec_bits() + if self.response {
            128int
        } else {
            0int
        }) as u8
    }

    /// The container unpacked from a byte.
    pub open spec fn spec_of_byte(b: u8) -> ServiceContainer {
        ServiceContainer {
            service: ServiceCode::spec_from_bits((b % 128) as u8),
            response: b >= 128,
        }
    }

    /// Builds a container from a service code and a response flag.
    pub fn new(service: ServiceCode, response: bool) -> (r: ServiceContainer)
        ensures
            r == (ServiceContainer { service, response }),
    {
        ServiceContainer { service, response }
    }

    /// Packs the container into its byte.
    pub fn byte(&self) -> (r: u8)
        requires
            self.wf(),
        ensures
            r == self.spec_byte(),
    {
        self.service.bits() + if self.response {
            128
        } else {
            0
        }
    }

    /// Unpacks a container from its byte.
    pub fn of_byte(b: u8) -> (r: ServiceContainer)
        ensures
            r == ServiceContainer::spec_of_byte(b),
            r.wf(),
    {
        ServiceContainer { service: ServiceCode::from_bits(b % 128), response: b >= 128 }
    }
}

/// Unpacking the packed byte of any well-formed container — all 128 service
/// codes, known or unknown, with either response bit — yields the same
/// service code and response flag again.
pub proof fn lemma_service_container_roundtrip(sc: ServiceContainer)
    requires
        sc.wf(),
    ensures
        ServiceContainer::spec_of_byte(sc.spec_byte()) == sc,
{
}

/// Every byte unpacks without error — an unrecognized service code becomes
/// the `Unknown` variant carrying its raw value — and packing the unpacked
/// container reproduces the byte exactly.
pub proof fn lemma_service_byte_roundtrip(b: u8)
    ensures
        ServiceContainer::spec_of_byte(b).spec_byte() == b,
{
}

/// The forward-compatibility fallback: a byte whose seven-bit service code
/// names no known service decodes, without error, into the `Unknown`
/// variant carrying exactly that code, and re-encodes to the original
/// byte.
pub proof fn lemma_unknown_service_fallback(b: u8)
    requires
        !ServiceCode::spec_is_named((b % 128) as u8),
    ensures
        ServiceContainer::spec_of_byte(b).service == ServiceCode::Unknown((b % 128) as u8),
        ServiceContainer::spec_of_byte(b).spec_byte() == b,
{
}

} // verus!
