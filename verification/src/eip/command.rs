//! Encapsulation commands and their command-specific payloads: session
//! registration, session unregistration, and the send-request/response-data
//! packet.

use vstd::prelude::*;

use crate::codec::{
    le16, le32, le16_val, le32_val, push_le16, push_le32, read_le16, read_le32, resolves_exact,
    CodecError,
};
use crate::eip::description::{CommonPacketDescriptor, CommonPacketItemId};

verus! {

/// The encapsulation command word.  An unrecognized code fails the decode:
/// no fallback variant is defined for commands.
#[derive(Debug, Clone, Copy, PartialEq, Eq)]
pub enum EnIpCommand {
    RegisterSession,
    UnRegisterSession,
    SendRrData,
}

impl EnIpCommand {
    /// The sixteen-bit command code on the wire.
    pub open spec fn spec_code(self) -> u16 {
        match self {
            EnIpCommand::RegisterSession => 0x0065,
            EnIpCommand::UnRegisterSession => 0x0066,
            EnIpCommand::SendRrData => 0x006F,
        }
    }

    /// The variant named by a sixteen-bit code, if any.
    pub open spec fn spec_of_code(c: u16) -> Option<EnIpCommand> {
        if c == 0x0065 {
            Some(EnIpCommand::RegisterSession)
        } else if c == 0x0066 {
            Some(EnIpCommand::UnRegisterSession)
        } else if c == 0x006F {
            Some(EnIpCommand::SendRrData)
        } else {
            None
        }
    }

    /// The sixteen-bit command code on the wire.
    pub fn code(&self) -> (r: u16)
        ensures
            r == self.spec_code(),
    {
        match self {
            EnIpCommand::RegisterSession => 0x0065,
            EnIpCommand::UnRegisterSession => 0x0066,
            EnIpCommand::SendRrData => 0x006F,
        }
    }

    /// The variant named by a sixteen-bit code, if any.
    pub fn of_code(c: u16) -> (r: Option<EnIpCommand>)
        ensures
            r == EnIpCommand::spec_of_code(c),
    {
        if c == 0x0065 {
            Some(EnIpCommand::RegisterSession)
        } else if c == 0x0066 {
            Some(EnIpCommand::UnRegisterSession)
        } else if c == 0x006F {
            Some(EnIpCommand::SendRrData)
        } else {
            None
        }
    }
}

/// The encapsulation status word.  An unrecognized code fails the decode.
#[derive(Debug, Clone, Copy, PartialEq, Eq)]
pub enum EncapsStatusCode {
    Success,
    UnsupportedCommand,
    InsufficientMemory,
    IncorrectData,
    InvalidSessionHandle,
    InvalidLength,
    UnsupportedProtocolVersion,
}

impl EncapsStatusCode {
    /// The thirty-two-bit status code on the wire.
    pub open spec fn spec_code(self) -> u32 {
        match self {
            EncapsStatusCode::Success => 0x0000,
            EncapsStatusCode::UnsupportedCommand => 0x0001,
            EncapsStatusCode::InsufficientMemory => 0x0002,
            EncapsStatusCode::IncorrectData => 0x0003,
            EncapsStatusCode::InvalidSessionHandle => 0x0064,
            EncapsStatusCode::InvalidLength => 0x0065,
            EncapsStatusCode::UnsupportedProtocolVersion => 0x0069,
        }
    }

    /// The variant named by a thirty-two-bit code, if any.
    pub open spec fn spec_of_code(c: u32) -> Option<EncapsStatusCode> {
        if c == 0x0000 {
            Some(EncapsStatusCode::Success)
        } else if c == 0x0001 {
            Some(EncapsStatusCode::UnsupportedCommand)
        } else if c == 0x0002 {
            Some(EncapsStatusCode::InsufficientMemory)
        } else if c == 0x0003 {
            Some(EncapsStatusCode::IncorrectData)
        } else if c == 0x0064 {
            Some(EncapsStatusCode::InvalidSessionHandle)
        } else if c == 0x0065 {
            Some(EncapsStatusCode::InvalidLength)
        } else if c == 0x0069 {
            Some(EncapsStatusCode::UnsupportedProtocolVersion)
        } else {
            None
        }
    }

    /// The thirty-two-bit status code on the wire.
    pub fn code(&self) -> (r: u32)
        ensures
            r == self.spec_code(),
    {
        match self {
            EncapsStatusCode::Success => 0x0000,
            EncapsStatusCode::UnsupportedCommand => 0x0001,
            EncapsStatusCode::InsufficientMemory => 0x0002,
            EncapsStatusCode::IncorrectData => 0x0003,
            EncapsStatusCode::InvalidSessionHandle => 0x0064,
            EncapsStatusCode::InvalidLength => 0x0065,
            EncapsStatusCode::UnsupportedProtocolVersion => 0x0069,
        }
    }

    /// The variant named by a thirty-two-bit code, if any.
    pub fn of_code(c: u32) -> (r: Option<EncapsStatusCode>)
        ensures
            r == EncapsStatusCode::spec_of_code(c),
    {
        if c == 0x0000 {
            Some(EncapsStatusCode::Success)
        } else if c == 0x0001 {
            Some(EncapsStatusCode::UnsupportedCommand)
        } else if c == 0x0002 {
            Some(EncapsStatusCode::InsufficientMemory)
        } else if c == 0x0003 {
            Some(EncapsStatusCode::IncorrectData)
        } else if c == 0x0064 {
            Some(EncapsStatusCode::InvalidSessionHandle)
        } else if c == 0x0065 {
            Some(EncapsStatusCode::InvalidLength)
        } else if c == 0x0069 {
            Some(EncapsStatusCode::UnsupportedProtocolVersion)
        } else {
            None
        }
    }
}

/// The payload of a session registration: the protocol version and the
/// option flags.
#[derive(Debug, Clone, Copy, PartialEq, Eq)]
pub struct RegisterData {
    pub protocol_version: u16,
    pub option_flags: u16,
}

impl RegisterData {
    /// The wire form: version, then flags, little-endian.
    pub open spec fn enc(self) -> Seq<u8> {
        le16(self.protocol_version) + le16(self.option_flags)
    }

    /// The spec-level parser for a registration payload.
    pub open spec fn parse(s: Seq<u8>) -> Result<(RegisterData, int), CodecError> {
        if s.len() < 4 {
            Err(CodecError::Truncated)
        } else {
            Ok((
                RegisterData {
                    protocol_version: le16_val(s[0], s[1]),
                    option_flags: le16_val(s[2], s[3]),
                },
                4,
            ))
        }
    }
}

/// The payload of a send-request/response-data command: an interface
/// handle, a timeout, and two common-packet items — the null address item
/// and the unconnected-data item whose length is the byte count of the CIP
/// message that follows the packet.
#[derive(Debug, Clone, Copy, PartialEq, Eq)]
pub struct RRPacketData {
    pub interface_handle: u32,
    pub timeout: u16,
    pub empty_data_packet: CommonPacketDescriptor,
    pub unconnected_data_packet: CommonPacketDescriptor,
}

impl RRPacketData {
    /// Builds the packet data for a new request: a null address item of
    /// length zero and an unconnected-data item whose length the writer
    /// measures.
    pub fn new(interface_handle: u32, timeout: u16) -> (r: RRPacketData)
        ensures
            r == (RRPacketData {
                interface_handle,
                timeout,
                empty_data_packet: CommonPacketDescriptor {
                    type_id: CommonPacketItemId::NullAddr,
                    packet_length: Some(0u16),
                },
                unconnected_data_packet: CommonPacketDescriptor {
                    type_id: CommonPacketItemId::UnconnectedMessage,
                    packet_length: None,
                },
            }),
    {
        RRPacketData {
            interface_handle,
            timeout,
            empty_data_packet: CommonPacketDescriptor {
                type_id: CommonPacketItemId::NullAddr,
                packet_length: Some(0),
            },
            unconnected_data_packet: CommonPacketDescriptor {
                type_id: CommonPacketItemId::UnconnectedMessage,
                packet_length: None,
            },
        }
    }

    /// Builds packet data with an explicitly supplied unconnected-data
    /// length, as decoded frames carry it.
    pub fn test_with_size(interface_handle: u32, timeout: u16, data_packet_length: Option<u16>) -> (r:
        RRPacketData)
        ensures
            r == (RRPacketData {
                interface_handle,
                timeout,
                empty_data_packet: CommonPacketDescriptor {
                    type_id: CommonPacketItemId::NullAddr,
                    packet_length: Some(0u16),
                },
                unconnected_data_packet: CommonPacketDescriptor {
                    type_id: CommonPacketItemId::UnconnectedMessage,
                    packet_length: data_packet_length,
                },
            }),
    {
        RRPacketData {
            interface_handle,
            timeout,
            empty_data_packet: CommonPacketDescriptor {
                type_id: CommonPacketItemId::NullAddr,
                packet_length: Some(0),
            },
            unconnected_data_packet: CommonPacketDescriptor {
                type_id: CommonPacketItemId::UnconnectedMessage,
                packet_length: data_packet_length,
            },
        }
    }

    /// The wire form, given the measured byte count of the CIP message that
    /// will follow: interface handle, timeout, the implicit item count of
    /// two, the null address item, then the unconnected-data item carrying
    /// that count.
    pub open spec fn enc(self, cip_length: u16) -> Seq<u8> {
        le32(self.interface_handle) + le16(self.timeout) + le16(2)
            + self.empty_data_packet.enc_null() + self.unconnected_data_packet.enc(cip_length)
    }

    /// The packet data this value decodes back to after a write with
    /// measured count `cip_length`: both descriptors' length fields hold
    /// what was written.
    pub open spec fn norm(self, cip_length: u16) -> RRPacketData {
        RRPacketData {
            interface_handle: self.interface_handle,
            timeout: self.timeout,
            empty_data_packet: self.empty_data_packet.norm_null(),
            unconnected_data_packet: self.unconnected_data_packet.norm(cip_length),
        }
    }

    /// The spec-level parser: interface handle, timeout, the item count
    /// (read and discarded), then the two descriptors.
    pub open spec fn parse(s: Seq<u8>) -> Result<(RRPacketData, int), CodecError> {
        if s.len() < 8 {
            Err(CodecError::Truncated)
        } else {
            match CommonPacketDescriptor::parse(s.skip(8)) {
                Err(e) => Err(e),
                Ok((empty_item, _)) => match CommonPacketDescriptor::parse(s.skip(12)) {
                    Err(e) => Err(e),
                    Ok((unconnected_item, _)) => Ok((
                        RRPacketData {
                            interface_handle: le32_val(s[0], s[1], s[2], s[3]),
                            timeout: le16_val(s[4], s[5]),
                            empty_data_packet: empty_item,
                            unconnected_data_packet: unconnected_item,
                        },
                        16,
                    )),
                },
            }
        }
    }

    /// Appends the wire form; `cip_length` is the measured byte count of
    /// the CIP message that will follow the packet.
    pub fn write(&self, out: &mut Vec<u8>, cip_length: u16)
        ensures
            final(out)@ == old(out)@ + self.enc(cip_length),
    {
        push_le32(out, self.interface_handle);
        push_le16(out, self.timeout);
        push_le16(out, 2);
        self.empty_data_packet.write_null(out);
        self.unconnected_data_packet.write(out, cip_length);
        proof {
            assert(out@ =~= old(out)@ + self.enc(cip_length));
        }
    }

    /// Reads packet data from `buf` at `pos`.
    pub fn read(buf: &[u8], pos: usize) -> (r: Result<(RRPacketData, usize), CodecError>)
        requires
            pos <= buf@.len(),
        ensures
            resolves_exact(r, pos as int, RRPacketData::parse(buf@.skip(pos as int))),
    {
        let len = buf.len();
        if len - pos < 8 {
            return Err(CodecError::Truncated);
        }
        proof {
            let s = buf@.skip(pos as int);
            assert(s[0] == buf@[pos as int] && s[1] == buf@[pos + 1] && s[2] == buf@[pos + 2]
                && s[3] == buf@[pos + 3] && s[4] == buf@[pos + 4] && s[5] == buf@[pos + 5]);
            crate::codec::lemma_skip_skip(buf@, pos as int, 8);
        }
        let interface_handle = read_le32(buf, pos);
        let timeout = read_le16(buf, pos + 4);
        let (empty_item, _) = match CommonPacketDescriptor::read(buf, pos + 8) {
            Ok(v) => v,
            Err(e) => {
                return Err(e);
            },
        };
        proof {
            assert(buf@.skip(pos + 8).len() >= 4);
            crate::codec::lemma_skip_skip(buf@, pos as int, 12);
        }
        let (unconnected_item, _) = match CommonPacketDescriptor::read(buf, pos + 12) {
            Ok(v) => v,
            Err(e) => {
                return Err(e);
            },
        };
        Ok((
            RRPacketData {
                interface_handle,
                timeout,
                empty_data_packet: empty_item,
                unconnected_data_packet: unconnected_item,
            },
            pos + 16,
        ))
    }
}

/// Parsing written packet data yields the same fields, with both length
/// fields holding what was written.
pub proof fn lemma_rr_packet_data_roundtrip(d: RRPacketData, cip_length: u16, rest: Seq<u8>)
    ensures
        RRPacketData::parse(d.enc(cip_length) + rest) == Ok::<_, CodecError>((
            d.norm(cip_length),
            16int,
        )),
{
    let s = d.enc(cip_length) + rest;
    assert forall|i: int| 0 <= i < 6 implies s[i] == d.enc(cip_length)[i] by {}
    crate::codec::lemma_le32_roundtrip(d.interface_handle);
    crate::codec::lemma_le16_roundtrip(d.timeout);
    assert(s.skip(8) =~= d.empty_data_packet.enc_null() + (
    d.unconnected_data_packet.enc(cip_length) + rest));
    crate::eip::description::lemma_descriptor_null_roundtrip(
        d.empty_data_packet,
        d.unconnected_data_packet.enc(cip_length) + rest,
    );
    assert(s.skip(12) =~= d.unconnected_data_packet.enc(cip_length) + rest);
    crate::eip::description::lemma_descriptor_roundtrip(
        d.unconnected_data_packet,
        cip_length,
        rest,
    );
}

/// The command-specific payload of an encapsulation frame.  Which variant
/// is on the wire is never tagged in the payload itself: the header's
/// command field is the discriminant, handed back in at decode time.
#[derive(Debug, Clone, Copy, PartialEq, Eq)]
pub enum CommandSpecificData {
    RegisterSession(RegisterData),
    UnregisterSession,
    SendRrData(RRPacketData),
}

impl CommandSpecificData {
    /// The command word under which this payload travels.
    pub open spec fn spec_command(self) -> EnIpCommand {
        match self {
            CommandSpecificData::RegisterSession(_) => EnIpCommand::RegisterSession,
            CommandSpecificData::UnregisterSession => EnIpCommand::UnRegisterSession,
            CommandSpecificData::SendRrData(_) => EnIpCommand::SendRrData,
        }
    }

    /// Builds the payload of a send-request/response-data command.
    pub fn new_request(interface_handle: u32, timeout: u16) -> (r: CommandSpecificData)
        ensures
            r == CommandSpecificData::SendRrData(
                RRPacketData {
                    interface_handle,
                    timeout,
                    empty_data_packet: CommonPacketDescriptor {
                        type_id: CommonPacketItemId::NullAddr,
                        packet_length: Some(0u16),
                    },
                    unconnected_data_packet: CommonPacketDescriptor {
                        type_id: CommonPacketItemId::UnconnectedMessage,
                        packet_length: None,
                    },
                },
            ),
    {
        CommandSpecificData::SendRrData(RRPacketData::new(interface_handle, timeout))
    }

    /// The wire form, given the measured byte count of the CIP message that
    /// will follow the frame.
    pub open spec fn enc(self, cip_length: u16) -> Seq<u8> {
        match self {
            CommandSpecificData::RegisterSession(d) => d.enc(),
            CommandSpecificData::UnregisterSession => Seq::<u8>::empty(),
            CommandSpecificData::SendRrData(d) => d.enc(cip_length),
        }
    }

    /// How many bytes the payload occupies on the wire: fixed per variant.
    pub open spec fn enc_len(self) -> int {
        match self {
            CommandSpecificData::RegisterSession(_) => 4,
            CommandSpecificData::UnregisterSession => 0,
            CommandSpecificData::SendRrData(_) => 16,
        }
    }

    /// The payload this value decodes back to after a write with measured
    /// count `cip_length`.
    pub open spec fn norm(self, cip_length: u16) -> CommandSpecificData {
        match self {
            CommandSpecificData::RegisterSession(d) => CommandSpecificData::RegisterSession(d),
            CommandSpecificData::UnregisterSession => CommandSpecificData::UnregisterSession,
            CommandSpecificData::SendRrData(d) => CommandSpecificData::SendRrData(
                d.norm(cip_length),
            ),
        }
    }

    /// The encoding occupies exactly `enc_len` bytes.
    pub proof fn lemma_enc_len(self, cip_length: u16)
        ensures
            self.enc(cip_length).len() == self.enc_len(),
    {
    }

    /// The spec-level parser, discriminated by the header's command word.
    pub open spec fn parse(s: Seq<u8>, command: EnIpCommand) -> Result<
        (CommandSpecificData, int),
        CodecError,
    > {
        match command {
            EnIpCommand::RegisterSession => match RegisterData::parse(s) {
                Err(e) => Err(e),
                Ok((d, n)) => Ok((CommandSpecificData::RegisterSession(d), n)),
            },
            EnIpCommand::UnRegisterSession => Ok((CommandSpecificData::UnregisterSession, 0)),
            EnIpCommand::SendRrData => match RRPacketData::parse(s) {
                Err(e) => Err(e),
                Ok((d, n)) => Ok((CommandSpecificData::SendRrData(d), n)),
            },
        }
    }

    /// Appends the wire form; `cip_length` is the measured byte count of
    /// the CIP message that will follow the frame.
    pub fn write(&self, out: &mut Vec<u8>, cip_length: u16)
        ensures
            final(out)@ == old(out)@ + self.enc(cip_length),
    {
        match self {
            CommandSpecificData::RegisterSession(d) => {
                push_le16(out, d.protocol_version);
                push_le16(out, d.option_flags);
                proof {
                    assert(out@ =~= old(out)@ + self.enc(cip_length));
                }
            },
            CommandSpecificData::UnregisterSession => {
                proof {
                    assert(out@ =~= old(out)@ + self.enc(cip_length));
                }
            },
            CommandSpecificData::SendRrData(d) => {
                d.write(out, cip_length);
            },
        }
    }

    /// Reads the payload selected by `command` from `buf` at `pos`.
    pub fn read(buf: &[u8], pos: usize, command: EnIpCommand) -> (r: Result<
        (CommandSpecificData, usize),
        CodecError,
    >)
        requires
            pos <= buf@.len(),
        ensures
            resolves_exact(
                r,
                pos as int,
                CommandSpecificData::parse(buf@.skip(pos as int), command),
            ),
    {
        let len = buf.len();
        match command {
            EnIpCommand::RegisterSession => {
                if len - pos < 4 {
                    return Err(CodecError::Truncated);
                }
                proof {
                    let s = buf@.skip(pos as int);
                    assert(s[0] == buf@[pos as int] && s[1] == buf@[pos + 1] && s[2] == buf@[pos
                        + 2] && s[3] == buf@[pos + 3]);
                }
                let protocol_version = read_le16(buf, pos);
                let option_flags = read_le16(buf, pos + 2);
                Ok((
                    CommandSpecificData::RegisterSession(
                        RegisterData { protocol_version, option_flags },
                    ),
                    pos + 4,
                ))
            },
            EnIpCommand::UnRegisterSession => Ok((CommandSpecificData::UnregisterSession, pos)),
            EnIpCommand::SendRrData => {
                let (d, p1) = match RRPacketData::read(buf, pos) {
                    Ok(v) => v,
                    Err(e) => {
                        return Err(e);
                    },
                };
                Ok((CommandSpecificData::SendRrData(d), p1))
            },
        }
    }
}

/// Parsing a written command-specific payload under its own command word
/// yields the same payload, with descriptor length fields holding what was
/// written.
pub proof fn lemma_command_specific_data_roundtrip(
    d: CommandSpecificData,
    cip_length: u16,
    rest: Seq<u8>,
)
    ensures
        CommandSpecificData::parse(d.enc(cip_length) + rest, d.spec_command()) == Ok::<
            _,
            CodecError,
        >((d.norm(cip_length), d.enc_len())),
{
    let s = d.enc(cip_length) + rest;
    match d {
        CommandSpecificData::RegisterSession(rd) => {
            assert(s[0] == rd.enc()[0] && s[1] == rd.enc()[1] && s[2] == rd.enc()[2] && s[3]
                == rd.enc()[3]);
            crate::codec::lemma_le16_roundtrip(rd.protocol_version);
            crate::codec::lemma_le16_roundtrip(rd.option_flags);
        },
        CommandSpecificData::UnregisterSession => {
        },
        CommandSpecificData::SendRrData(rd) => {
            assert(s =~= rd.enc(cip_length) + rest);
            lemma_rr_packet_data_roundtrip(rd, cip_length, rest);
        },
    }
}

} // verus!
