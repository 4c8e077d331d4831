//! Common-packet item descriptors: the sub-item headers inside an
//! encapsulated payload, each a type id and a length.

use vstd::prelude::*;

use crate::codec::{le16, le16_val, push_le16, read_le16, resolves_exact, CodecError};

verus! {

/// The type id of a common-packet item.  An unrecognized id fails the
/// decode: no fallback variant is defined for item ids.
#[derive(Debug, Clone, Copy, PartialEq, Eq)]
pub enum CommonPacketItemId {
    NullAddr,
    ListIdentity,
    ConnectionAddressItem,
    ConnectedTransportPacket,
    UnconnectedMessage,
    O2TSockAddrInfo,
    T2OSockAddrInfo,
    SequencedAddressItem,
}

impl CommonPacketItemId {
    /// The sixteen-bit item id on the wire.
    pub open spec fn spec_code(self) -> u16 {
        match self {
            CommonPacketItemId::NullAddr => 0x0000,
            CommonPacketItemId::ListIdentity => 0x000C,
            CommonPacketItemId::ConnectionAddressItem => 0x00A1,
            CommonPacketItemId::ConnectedTransportPacket => 0x00B1,
            CommonPacketItemId::UnconnectedMessage => 0x00B2,
            CommonPacketItemId::O2TSockAddrInfo => 0x8000,
            CommonPacketItemId::T2OSockAddrInfo => 0x8001,
            CommonPacketItemId::SequencedAddressItem => 0x8002,
        }
    }

    /// The variant named by a sixteen-bit code, if any.
    pub open spec fn spec_of_code(c: u16) -> Option<CommonPacketItemId> {
        if c == 0x0000 {
            Some(CommonPacketItemId::NullAddr)
        } else if c == 0x000C {
            Some(CommonPacketItemId::ListIdentity)
        } else if c == 0x00A1 {
            Some(CommonPacketItemId::ConnectionAddressItem)
        } else if c == 0x00B1 {
            Some(CommonPacketItemId::ConnectedTransportPacket)
        } else if c == 0x00B2 {
            Some(CommonPacketItemId::UnconnectedMessage)
        } else if c == 0x8000 {
            Some(CommonPacketItemId::O2TSockAddrInfo)
        } else if c == 0x8001 {
            Some(CommonPacketItemId::T2OSockAddrInfo)
        } else if c == 0x8002 {
            Some(CommonPacketItemId::SequencedAddressItem)
        } else {
            None
        }
    }

    /// The sixteen-bit item id on the wire.
    pub fn code(&self) -> (r: u16)
        ensures
            r == self.spec_code(),
    {
        match self {
            CommonPacketItemId::NullAddr => 0x0000,
            CommonPacketItemId::ListIdentity => 0x000C,
            CommonPacketItemId::ConnectionAddressItem => 0x00A1,
            CommonPacketItemId::ConnectedTransportPacket => 0x00B1,
            CommonPacketItemId::UnconnectedMessage => 0x00B2,
            CommonPacketItemId::O2TSockAddrInfo => 0x8000,
            CommonPacketItemId::T2OSockAddrInfo => 0x8001,
            CommonPacketItemId::SequencedAddressItem => 0x8002,
        }
    }

    /// The variant named by a sixteen-bit code, if any.
    pub fn of_code(c: u16) -> (r: Option<CommonPacketItemId>)
        ensures
            r == CommonPacketItemId::spec_of_code(c),
    {
        if c == 0x0000 {
            Some(CommonPacketItemId::NullAddr)
        } else if c == 0x000C {
            Some(CommonPacketItemId::ListIdentity)
        } else if c == 0x00A1 {
            Some(CommonPacketItemId::ConnectionAddressItem)
        } else if c == 0x00B1 {
            Some(CommonPacketItemId::ConnectedTransportPacket)
        } else if c == 0x00B2 {
            Some(CommonPacketItemId::UnconnectedMessage)
        } else if c == 0x8000 {
            Some(CommonPacketItemId::O2TSockAddrInfo)
        } else if c == 0x8001 {
            Some(CommonPacketItemId::T2OSockAddrInfo)
        } else if c == 0x8002 {
            Some(CommonPacketItemId::SequencedAddressItem)
        } else {
            None
        }
    }
}

/// One common-packet item descriptor: a type id and an optionally-supplied
/// length.  The length actually written is decided at write time: the
/// enclosing packet hands down the measured byte count of the data that
/// will follow, and only when that count is zero does a stored length win.
#[derive(Debug, Clone, Copy, PartialEq, Eq)]
pub struct CommonPacketDescriptor {
    pub type_id: CommonPacketItemId,
    pub packet_length: Option<u16>,
}

impl CommonPacketDescriptor {
    /// The length the writer puts on the wire, given the measured byte
    /// count `provided` handed down by the enclosing packet.
    pub open spec fn written_length(self, provided: u16) -> u16 {
        if provided == 0 {
            match self.packet_length {
                Some(v) => v,
                None => 0,
            }
        } else {
            provided
        }
    }

    /// The wire form: the item id, then the written length, both
    /// little-endian.
    pub open spec fn enc(self, provided: u16) -> Seq<u8> {
        le16(self.type_id.spec_code()) + le16(self.written_length(provided))
    }

    /// The descriptor this one decodes back to after a write with measured
    /// count `provided`: the length field holds exactly the written length.
    pub open spec fn norm(self, provided: u16) -> CommonPacketDescriptor {
        CommonPacketDescriptor {
            type_id: self.type_id,
            packet_length: Some(self.written_length(provided)),
        }
    }

    /// Appends the wire form; `provided` is the measured byte count handed
    /// down by the enclosing packet.
    pub fn write(&self, out: &mut Vec<u8>, provided: u16)
        ensures
            final(out)@ == old(out)@ + self.enc(provided),
    {
        push_le16(out, self.type_id.code());
        let length: u16 = if provided == 0 {
            match self.packet_length {
                Some(v) => v,
                None => 0,
            }
        } else {
            provided
        };
        push_le16(out, length);
        proof {
            assert(out@ =~= old(out)@ + self.enc(provided));
        }
    }

    /// The wire form in the null-address role: the item id, then a zero
    /// length — the null address item always serializes its length as
    /// zero, whatever length is stored.
    pub open spec fn enc_null(self) -> Seq<u8> {
        le16(self.type_id.spec_code()) + le16(0)
    }

    /// The descriptor a null-address write decodes back to: the stored
    /// length is zero.
    pub open spec fn norm_null(self) -> CommonPacketDescriptor {
        CommonPacketDescriptor { type_id: self.type_id, packet_length: Some(0u16) }
    }

    /// Appends the wire form in the null-address role: the length written
    /// is always zero.
    pub fn write_null(&self, out: &mut Vec<u8>)
        ensures
            final(out)@ == old(out)@ + self.enc_null(),
    {
        push_le16(out, self.type_id.code());
        push_le16(out, 0);
        proof {
            assert(out@ =~= old(out)@ + self.enc_null());
        }
    }

    /// The spec-level parser for a descriptor: the item id (which must be a
    /// known one), then the length, which always decodes as present.
    pub open spec fn parse(s: Seq<u8>) -> Result<(CommonPacketDescriptor, int), CodecError> {
        if s.len() < 4 {
            Err(CodecError::Truncated)
        } else {
            let code = le16_val(s[0], s[1]);
            match CommonPacketItemId::spec_of_code(code) {
                None => Err(CodecError::UnknownItemId(code)),
                Some(id) => Ok((
                    CommonPacketDescriptor {
                        type_id: id,
                        packet_length: Some(le16_val(s[2], s[3])),
                    },
                    4,
                )),
            }
        }
    }

    /// Reads a descriptor from `buf` at `pos`.
    pub fn read(buf: &[u8], pos: usize) -> (r: Result<(CommonPacketDescriptor, usize), CodecError>)
        requires
            pos <= buf@.len(),
        ensures
            resolves_exact(r, pos as int, CommonPacketDescriptor::parse(buf@.skip(pos as int))),
    {
        let len = buf.len();
        if len - pos < 4 {
            return Err(CodecError::Truncated);
        }
        proof {
            let s = buf@.skip(pos as int);
            assert(s[0] == buf@[pos as int] && s[1] == buf@[pos + 1] && s[2] == buf@[pos + 2]
                && s[3] == buf@[pos + 3]);
        }
        let code = read_le16(buf, pos);
        let id = match CommonPacketItemId::of_code(code) {
            Some(id) => id,
            None => {
                return Err(CodecError::UnknownItemId(code));
            },
        };
        let length = read_le16(buf, pos + 2);
        Ok((CommonPacketDescriptor { type_id: id, packet_length: Some(length) }, pos + 4))
    }
}

/// Parsing a written descriptor yields the same type id, with the length
/// field holding exactly the length that was written.
pub proof fn lemma_descriptor_roundtrip(d: CommonPacketDescriptor, provided: u16, rest: Seq<u8>)
    ensures
        CommonPacketDescriptor::parse(d.enc(provided) + rest) == Ok::<_, CodecError>((
            d.norm(provided),
            4int,
        )),
{
    let s = d.enc(provided) + rest;
    assert(s[0] == d.enc(provided)[0] && s[1] == d.enc(provided)[1] && s[2] == d.enc(provided)[2]
        && s[3] == d.enc(provided)[3]);
    crate::codec::lemma_le16_roundtrip(d.type_id.spec_code());
    crate::codec::lemma_le16_roundtrip(d.written_length(provided));
}

/// Parsing a descriptor written in the null-address role yields the same
/// type id with a length of zero.
pub proof fn lemma_descriptor_null_roundtrip(d: CommonPacketDescriptor, rest: Seq<u8>)
    ensures
        CommonPacketDescriptor::parse(d.enc_null() + rest) == Ok::<_, CodecError>((
            d.norm_null(),
            4int,
        )),
{
    let s = d.enc_null() + rest;
    assert(s[0] == d.enc_null()[0] && s[1] == d.enc_null()[1] && s[2] == d.enc_null()[2] && s[3]
        == d.enc_null()[3]);
    crate::codec::lemma_le16_roundtrip(d.type_id.spec_code());
    crate::codec::lemma_le16_roundtrip(0);
}

} // verus!
