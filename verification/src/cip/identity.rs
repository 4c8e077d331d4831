//! The identity object: the typed payload a device returns for a
//! get-attributes-all request on the identity class — vendor, device type,
//! product code, revision, status word, serial number and product name.

use vstd::prelude::*;

use crate::cip::message::data::CipData;
use crate::cip::types::{parse_short_string, short_string_enc, CipShortString};
use crate::codec::{
    le16, le32, le16_val, le32_val, push_le16, push_le32, read_le16, read_le32, resolves,
    CodecError,
};

verus! {

/// The device vendor.  Unrecognized vendor words are carried through in an
/// `Unknown` variant rather than rejected.
#[derive(Debug, Clone, Copy, PartialEq, Eq)]
pub enum VendorId {
    TeknicInc,
    Unknown(u16),
}

impl VendorId {
    /// The sixteen-bit vendor word on the wire.
    pub open spec fn spec_code(self) -> u16 {
        match self {
            VendorId::TeknicInc => 0x01a8,
            VendorId::Unknown(v) => v,
        }
    }

    /// The variant selected by a vendor word.
    pub open spec fn spec_of_code(c: u16) -> VendorId {
        if c == 0x01a8 {
            VendorId::TeknicInc
        } else {
            VendorId::Unknown(c)
        }
    }

    /// An `Unknown` never shadows a named vendor.
    pub open spec fn wf(self) -> bool {
        match self {
            VendorId::Unknown(v) => v != 0x01a8,
            _ => true,
        }
    }

    /// The sixteen-bit vendor word on the wire.
    pub fn code(&self) -> (r: u16)
        ensures
            r == self.spec_code(),
    {
        match self {
            VendorId::TeknicInc => 0x01a8,
            VendorId::Unknown(v) => *v,
        }
    }

    /// The variant selected by a vendor word.
    pub fn of_code(c: u16) -> (r: VendorId)
        ensures
            r == VendorId::spec_of_code(c),
            r.wf(),
    {
        if c == 0x01a8 {
            VendorId::TeknicInc
        } else {
            VendorId::Unknown(c)
        }
    }
}

/// The device type.  Unrecognized type words are carried through in an
/// `Unknown` variant rather than rejected.
#[derive(Debug, Clone, Copy, PartialEq, Eq)]
pub enum DeviceType {
    GenericDevice,
    Unknown(u16),
}

impl DeviceType {
    /// The sixteen-bit device-type word on the wire.
    pub open spec fn spec_code(self) -> u16 {
        match self {
            DeviceType::GenericDevice => 0x002b,
            DeviceType::Unknown(v) => v,
        }
    }

    /// The variant selected by a device-type word.
    pub open spec fn spec_of_code(c: u16) -> DeviceType {
        if c == 0x002b {
            DeviceType::GenericDevice
        } else {
            DeviceType::Unknown(c)
        }
    }

    /// An `Unknown` never shadows a named device type.
    pub open spec fn wf(self) -> bool {
        match self {
            DeviceType::Unknown(v) => v != 0x002b,
            _ => true,
        }
    }

    /// The sixteen-bit device-type word on the wire.
    pub fn code(&self) -> (r: u16)
        ensures
            r == self.spec_code(),
    {
        match self {
            DeviceType::GenericDevice => 0x002b,
            DeviceType::Unknown(v) => *v,
        }
    }

    /// The variant selected by a device-type word.
    pub fn of_code(c: u16) -> (r: DeviceType)
        ensures
            r == DeviceType::spec_of_code(c),
            r.wf(),
    {
        if c == 0x002b {
            DeviceType::GenericDevice
        } else {
            DeviceType::Unknown(c)
        }
    }
}

/// A device revision: major and minor, one byte each.
#[derive(Debug, Clone, Copy, PartialEq, Eq)]
pub struct Revision {
    pub major: u8,
    pub minor: u8,
}

/// The identity status word, unpacked into its bit fields.  The two
/// extended-status fields are four bits wide; wider values are masked when
/// the word is packed.
#[derive(Debug, Clone, Copy, PartialEq, Eq)]
pub struct IdentityStatusBits {
    pub owned: bool,
    pub unused1: bool,
    pub configured: bool,
    pub unused2: bool,
    pub extended_device_status: u8,
    pub minor_recoverable_fault: bool,
    pub minor_unrecoverable_fault: bool,
    pub major_recoverable_fault: bool,
    pub major_unrecoverable_fault: bool,
    pub extended_device_status_2: u8,
}

/// The numeric weight of a flag bit.
pub open spec fn bit_weight(b: bool, weight: int) -> int {
    if b {
        weight
    } else {
        0
    }
}

impl IdentityStatusBits {
    /// Both four-bit fields fit in four bits.
    pub open spec fn wf(self) -> bool {
        self.extended_device_status < 16 && self.extended_device_status_2 < 16
    }

    /// The packed sixteen-bit status word: flags in the low bits, the
    /// extended fields four bits wide each.
    pub open spec fn spec_value(self) -> u16 {
        (bit_weight(self.owned, 1) + bit_weight(self.unused1, 2) + bit_weight(self.configured, 4)
            + bit_weight(self.unused2, 8) + (self.extended_device_status % 16) * 16 + bit_weight(
            self.minor_recoverable_fault,
            256,
        ) + bit_weight(self.minor_unrecoverable_fault, 512) + bit_weight(
            self.major_recoverable_fault,
            1024,
        ) + bit_weight(self.major_unrecoverable_fault, 2048) + (self.extended_device_status_2
            % 16) * 4096) as u16
    }

    /// The status word unpacked into its bit fields.
    pub open spec fn spec_of_value(v: u16) -> IdentityStatusBits {
        IdentityStatusBits {
            owned: v % 2 == 1,
            unused1: (v / 2) % 2 == 1,
            configured: (v / 4) % 2 == 1,
            unused2: (v / 8) % 2 == 1,
            extended_device_status: ((v / 16) % 16) as u8,
            minor_recoverable_fault: (v / 256) % 2 == 1,
            minor_unrecoverable_fault: (v / 512) % 2 == 1,
            major_recoverable_fault: (v / 1024) % 2 == 1,
            major_unrecoverable_fault: (v / 2048) % 2 == 1,
            extended_device_status_2: (v / 4096) as u8,
        }
    }

    /// Builds a status word from its bit fields.
    pub fn new(
        owned: bool,
        unused1: bool,
        configured: bool,
        unused2: bool,
        extended_device_status: u8,
        minor_recoverable_fault: bool,
        minor_unrecoverable_fault: bool,
        major_recoverable_fault: bool,
        major_unrecoverable_fault: bool,
        extended_device_status_2: u8,
    ) -> (r: IdentityStatusBits)
        ensures
            r == (IdentityStatusBits {
                owned,
                unused1,
                configured,
                unused2,
                extended_device_status,
                minor_recoverable_fault,
                minor_unrecoverable_fault,
                major_recoverable_fault,
                major_unrecoverable_fault,
                extended_device_status_2,
            }),
    {
        IdentityStatusBits {
            owned,
            unused1,
            configured,
            unused2,
            extended_device_status,
            minor_recoverable_fault,
            minor_unrecoverable_fault,
            major_recoverable_fault,
            major_unrecoverable_fault,
            extended_device_status_2,
        }
    }

    /// Packs the bit fields into the status word.
    pub fn value(&self) -> (r: u16)
        ensures
            r == self.spec_value(),
    {
        let mut v: u16 = 0;
        if self.owned {
            v = v + 1;
        }
        if self.unused1 {
            v = v + 2;
        }
        if self.configured {
            v = v + 4;
        }
        if self.unused2 {
            v = v + 8;
        }
        v = v + (self.extended_device_status % 16) as u16 * 16;
        if self.minor_recoverable_fault {
            v = v + 256;
        }
        if self.minor_unrecoverable_fault {
            v = v + 512;
        }
        if self.major_recoverable_fault {
            v = v + 1024;
        }
        if self.major_unrecoverable_fault {
            v = v + 2048;
        }
        v = v + (self.extended_device_status_2 % 16) as u16 * 4096;
        v
    }
}

/// Unpacking a packed status word yields the same well-formed bit fields.
pub proof fn lemma_status_bits_roundtrip(b: IdentityStatusBits)
    requires
        b.wf(),
    ensures
        IdentityStatusBits::spec_of_value(b.spec_value()) == b,
{
    let a0: u16 = if b.owned {
        1
    } else {
        0
    };
    let a1: u16 = if b.unused1 {
        1
    } else {
        0
    };
    let a2: u16 = if b.configured {
        1
    } else {
        0
    };
    let a3: u16 = if b.unused2 {
        1
    } else {
        0
    };
    let e1: u16 = (b.extended_device_status % 16) as u16;
    let b0: u16 = if b.minor_recoverable_fault {
        1
    } else {
        0
    };
    let b1: u16 = if b.minor_unrecoverable_fault {
        1
    } else {
        0
    };
    let b2: u16 = if b.major_recoverable_fault {
        1
    } else {
        0
    };
    let b3: u16 = if b.major_unrecoverable_fault {
        1
    } else {
        0
    };
    let e2: u16 = (b.extended_device_status_2 % 16) as u16;
    let v: u16 = b.spec_value();
    assert(v == a0 + a1 * 2 + a2 * 4 + a3 * 8 + e1 * 16 + b0 * 256 + b1 * 512 + b2 * 1024 + b3
        * 2048 + e2 * 4096);
    assert(v % 2 == a0 && (v / 2) % 2 == a1 && (v / 4) % 2 == a2 && (v / 8) % 2 == a3 && (v / 16)
        % 16 == e1 && (v / 256) % 2 == b0 && (v / 512) % 2 == b1 && (v / 1024) % 2 == b2 && (v
        / 2048) % 2 == b3 && v / 4096 == e2) by (bit_vector)
        requires
            v == a0 + a1 * 2 + a2 * 4 + a3 * 8 + e1 * 16 + b0 * 256 + b1 * 512 + b2 * 1024 + b3
                * 2048 + e2 * 4096,
            a0 <= 1,
            a1 <= 1,
            a2 <= 1,
            a3 <= 1,
            e1 < 16,
            b0 <= 1,
            b1 <= 1,
            b2 <= 1,
            b3 <= 1,
            e2 < 16,
    ;
    assert(b.extended_device_status % 16 == b.extended_device_status);
    assert(b.extended_device_status_2 % 16 == b.extended_device_status_2);
}

/// The identity status word as it travels on the wire: one packed
/// sixteen-bit value.  Conversions to and from `IdentityStatusBits` unpack
/// and pack it.
#[derive(Debug, Clone, Copy, PartialEq, Eq)]
pub struct IdentityStatus {
    status_representation: u16,
}

impl IdentityStatus {
    /// The packed status word.
    pub closed spec fn spec_value(self) -> u16 {
        self.status_representation
    }

    /// The status holding a given packed word.
    pub closed spec fn spec_of_value(v: u16) -> IdentityStatus {
        IdentityStatus { status_representation: v }
    }

    /// The two closed constructors are mutually inverse.
    pub proof fn lemma_value_roundtrip(v: u16, s: IdentityStatus)
        ensures
            IdentityStatus::spec_of_value(v).spec_value() == v,
            IdentityStatus::spec_of_value(s.spec_value()) == s,
    {
    }

    /// The status holding a given packed word.
    pub fn of_value(v: u16) -> (r: IdentityStatus)
        ensures
            r == IdentityStatus::spec_of_value(v),
    {
        IdentityStatus { status_representation: v }
    }

    /// The packed status word.
    pub fn value(&self) -> (r: u16)
        ensures
            r == self.spec_value(),
    {
        self.status_representation
    }
}

impl From<IdentityStatus> for IdentityStatusBits {
    /// Unpacks the wire word into its bit fields.
    fn from(segment: IdentityStatus) -> (r: IdentityStatusBits) {
        let v = segment.value();
        IdentityStatusBits {
            owned: v % 2 == 1,
            unused1: (v / 2) % 2 == 1,
            configured: (v / 4) % 2 == 1,
            unused2: (v / 8) % 2 == 1,
            extended_device_status: ((v / 16) % 16) as u8,
            minor_recoverable_fault: (v / 256) % 2 == 1,
            minor_unrecoverable_fault: (v / 512) % 2 == 1,
            major_recoverable_fault: (v / 1024) % 2 == 1,
            major_unrecoverable_fault: (v / 2048) % 2 == 1,
            extended_device_status_2: (v / 4096) as u8,
        }
    }
}

impl vstd::std_specs::convert::FromSpecImpl<IdentityStatus> for IdentityStatusBits {
    open spec fn obeys_from_spec() -> bool {
        true
    }

    open spec fn from_spec(segment: IdentityStatus) -> IdentityStatusBits {
        IdentityStatusBits::spec_of_value(segment.spec_value())
    }
}

impl From<IdentityStatusBits> for IdentityStatus {
    /// Packs the bit fields into the wire word.
    fn from(segment: IdentityStatusBits) -> (r: IdentityStatus) {
        IdentityStatus::of_value(segment.value())
    }
}

impl vstd::std_specs::convert::FromSpecImpl<IdentityStatusBits> for IdentityStatus {
    open spec fn obeys_from_spec() -> bool {
        true
    }

    open spec fn from_spec(segment: IdentityStatusBits) -> IdentityStatus {
        IdentityStatus::spec_of_value(segment.spec_value())
    }
}

/// The identity object's attributes, in wire order.
#[derive(Debug, PartialEq, Eq)]
pub struct IdentityResponse {
    pub vendor_id: VendorId,
    pub device_type: DeviceType,
    pub product_code: u16,
    pub revision: Revision,
    pub status: IdentityStatus,
    pub serial_number: u32,
    pub product_name: CipShortString,
}

/// The mathematical model of `IdentityResponse`: the product name reduced
/// to its bytes.
#[verifier::ext_equal]
pub ghost struct IdentityResponseView {
    pub vendor_id: VendorId,
    pub device_type: DeviceType,
    pub product_code: u16,
    pub revision: Revision,
    pub status: IdentityStatus,
    pub serial_number: u32,
    pub product_name: Seq<u8>,
}

impl View for IdentityResponse {
    type V = IdentityResponseView;

    open spec fn view(&self) -> IdentityResponseView {
        IdentityResponseView {
            vendor_id: self.vendor_id,
            device_type: self.device_type,
            product_code: self.product_code,
            revision: self.revision,
            status: self.status,
            serial_number: self.serial_number,
            product_name: self.product_name@,
        }
    }
}

impl IdentityResponseView {
    /// The vendor and device words never shadow a named variant and the
    /// product name fits its length prefix.
    pub open spec fn wf(self) -> bool {
        self.vendor_id.wf() && self.device_type.wf() && self.product_name.len() <= 255
    }

    /// The wire form, all integers little-endian: vendor, device type,
    /// product code, revision, status, serial number, then the
    /// length-prefixed product name.
    pub open spec fn enc(self) -> Seq<u8> {
        le16(self.vendor_id.spec_code()) + le16(self.device_type.spec_code()) + le16(
            self.product_code,
        ) + seq![self.revision.major, self.revision.minor] + le16(self.status.spec_value()) + le32(
            self.serial_number,
        ) + short_string_enc(self.product_name)
    }
}

/// The spec-level parser for an identity response.
pub open spec fn parse_identity_response(s: Seq<u8>) -> Result<
    (IdentityResponseView, int),
    CodecError,
> {
    if s.len() < 14 {
        Err(CodecError::Truncated)
    } else {
        match parse_short_string(s.skip(14)) {
            Err(e) => Err(e),
            Ok((name, nn)) => Ok((
                IdentityResponseView {
                    vendor_id: VendorId::spec_of_code(le16_val(s[0], s[1])),
                    device_type: DeviceType::spec_of_code(le16_val(s[2], s[3])),
                    product_code: le16_val(s[4], s[5]),
                    revision: Revision { major: s[6], minor: s[7] },
                    status: IdentityStatus::spec_of_value(le16_val(s[8], s[9])),
                    serial_number: le32_val(s[10], s[11], s[12], s[13]),
                    product_name: name,
                },
                14 + nn,
            )),
        }
    }
}

impl IdentityResponse {
    /// Reads an identity response from `buf` at `pos`: the explicit
    /// "interpret these bytes as an identity object" operation applied to a
    /// raw payload.
    pub fn read(buf: &[u8], pos: usize) -> (r: Result<(IdentityResponse, usize), CodecError>)
        requires
            pos <= buf@.len(),
        ensures
            resolves(r, pos as int, parse_identity_response(buf@.skip(pos as int))),
            r matches Ok((v, _)) ==> v@.wf(),
    {
        let len = buf.len();
        if len - pos < 14 {
            return Err(CodecError::Truncated);
        }
        proof {
            let s = buf@.skip(pos as int);
            assert forall|i: int| 0 <= i < 14 implies s[i] == buf@[pos + i] by {}
            crate::codec::lemma_skip_skip(buf@, pos as int, 14);
        }
        let vendor_id = VendorId::of_code(read_le16(buf, pos));
        let device_type = DeviceType::of_code(read_le16(buf, pos + 2));
        let product_code = read_le16(buf, pos + 4);
        let revision = Revision { major: buf[pos + 6], minor: buf[pos + 7] };
        let status = IdentityStatus::of_value(read_le16(buf, pos + 8));
        let serial_number = read_le32(buf, pos + 10);
        let (product_name, p1) = match CipShortString::read(buf, pos + 14) {
            Ok(v) => v,
            Err(e) => {
                return Err(e);
            },
        };
        Ok((
            IdentityResponse {
                vendor_id,
                device_type,
                product_code,
                revision,
                status,
                serial_number,
                product_name,
            },
            p1,
        ))
    }
}

/// An identity response is a typed payload: it states and produces its own
/// wire form.
impl CipData for IdentityResponse {
    open spec fn enc(&self) -> Seq<u8> {
        self@.enc()
    }

    fn write_to(&self, out: &mut Vec<u8>) {
        push_le16(out, self.vendor_id.code());
        push_le16(out, self.device_type.code());
        push_le16(out, self.product_code);
        out.push(self.revision.major);
        out.push(self.revision.minor);
        push_le16(out, self.status.value());
        push_le32(out, self.serial_number);
        self.product_name.write(out);
        proof {
            assert(out@ =~= old(out)@ + self@.enc());
        }
    }
}

/// Parsing the wire form of a well-formed identity response yields the same
/// response and consumes exactly its bytes, whatever follows.
pub proof fn lemma_identity_response_roundtrip(m: IdentityResponseView, rest: Seq<u8>)
    requires
        m.wf(),
    ensures
        parse_identity_response(m.enc() + rest) == Ok::<_, CodecError>((
            m,
            m.enc().len() as int,
        )),
{
    let s = m.enc() + rest;
    assert forall|i: int| 0 <= i < 14 implies s[i] == m.enc()[i] by {}
    crate::codec::lemma_le16_roundtrip(m.vendor_id.spec_code());
    crate::codec::lemma_le16_roundtrip(m.device_type.spec_code());
    crate::codec::lemma_le16_roundtrip(m.product_code);
    crate::codec::lemma_le16_roundtrip(m.status.spec_value());
    crate::codec::lemma_le32_roundtrip(m.serial_number);
    IdentityStatus::lemma_value_roundtrip(m.status.spec_value(), m.status);
    assert(s.skip(14) =~= short_string_enc(m.product_name) + rest);
    crate::cip::types::lemma_short_string_roundtrip(m.product_name, rest);
}

} // verus!
