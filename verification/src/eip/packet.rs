//! The outer encapsulation frame: a fixed 24-byte header carrying the
//! command, the computed length of everything after the header, session
//! identity and status, followed by the command-specific payload.

use vstd::prelude::*;

use crate::codec::{
    le16, le32, le16_val, le32_val, push_bytes, push_le16, push_le32, read_le16, read_le32,
    resolves, CodecError,
};
use crate::eip::command::{CommandSpecificData, EnIpCommand, EncapsStatusCode, RegisterData};

verus! {

broadcast use vstd::array::group_array_axioms;

/// How many bytes of opaque sender context the header carries.
pub const SENDER_CONTEXT_SIZE: usize = 8;

/// The fixed 24-byte encapsulation header.  The `length` field is the byte
/// count of everything after the header; built headers leave it `None` and
/// the writer fills in the measured value, while decoded headers always
/// carry it.
#[derive(Debug, Clone, Copy, PartialEq, Eq)]
pub struct EncapsulationHeader {
    pub command: EnIpCommand,
    pub length: Option<u16>,
    pub session_handle: u32,
    pub status_code: EncapsStatusCode,
    pub sender_context: [u8; 8],
    pub options: u32,
}

/// The mathematical model of `EncapsulationHeader`: the sender context as a
/// byte sequence.
#[verifier::ext_equal]
pub ghost struct EncapsulationHeaderView {
    pub command: EnIpCommand,
    pub length: Option<u16>,
    pub session_handle: u32,
    pub status_code: EncapsStatusCode,
    pub sender_context: Seq<u8>,
    pub options: u32,
}

impl View for EncapsulationHeader {
    type V = EncapsulationHeaderView;

    open spec fn view(&self) -> EncapsulationHeaderView {
        EncapsulationHeaderView {
            command: self.command,
            length: self.length,
            session_handle: self.session_handle,
            status_code: self.status_code,
            sender_context: self.sender_context@,
            options: self.options,
        }
    }
}

impl EncapsulationHeaderView {
    /// The sender context is exactly eight bytes.
    pub open spec fn wf(self) -> bool {
        self.sender_context.len() == 8
    }

    /// The length the writer puts on the wire: a stored length wins,
    /// otherwise the measured `computed` byte count of what follows the
    /// header.
    pub open spec fn written_length(self, computed: u16) -> u16 {
        match self.length {
            Some(v) => v,
            None => computed,
        }
    }

    /// The 24-byte wire form, given the measured byte count of everything
    /// that will follow the header.
    pub open spec fn enc(self, computed: u16) -> Seq<u8> {
        le16(self.command.spec_code()) + le16(self.written_length(computed)) + le32(
            self.session_handle,
        ) + le32(self.status_code.spec_code()) + self.sender_context + le32(self.options)
    }

    /// The header this one decodes back to after a write with measured
    /// count `computed`: the length field holds exactly the written length.
    pub open spec fn norm(self, computed: u16) -> EncapsulationHeaderView {
        EncapsulationHeaderView {
            command: self.command,
            length: Some(self.written_length(computed)),
            session_handle: self.session_handle,
            status_code: self.status_code,
            sender_context: self.sender_context,
            options: self.options,
        }
    }
}

/// The spec-level parser for an encapsulation header: both the command and
/// the status must name known codes.
pub open spec fn parse_header(s: Seq<u8>) -> Result<(EncapsulationHeaderView, int), CodecError> {
    if s.len() < 24 {
        Err(CodecError::Truncated)
    } else {
        let command_code = le16_val(s[0], s[1]);
        match EnIpCommand::spec_of_code(command_code) {
            None => Err(CodecError::UnknownCommand(command_code)),
            Some(command) => {
                let status_code = le32_val(s[8], s[9], s[10], s[11]);
                match EncapsStatusCode::spec_of_code(status_code) {
                    None => Err(CodecError::UnknownEncapsStatus(status_code)),
                    Some(status) => Ok((
                        EncapsulationHeaderView {
                            command,
                            length: Some(le16_val(s[2], s[3])),
                            session_handle: le32_val(s[4], s[5], s[6], s[7]),
                            status_code: status,
                            sender_context: s.subrange(12, 20),
                            options: le32_val(s[20], s[21], s[22], s[23]),
                        },
                        24,
                    )),
                }
            },
        }
    }
}

impl EncapsulationHeader {
    /// Appends the 24-byte wire form; `packet_length` is the measured byte
    /// count of everything that will follow the header, used when no length
    /// is stored.
    pub fn write(&self, out: &mut Vec<u8>, packet_length: u16)
        ensures
            final(out)@ == old(out)@ + self@.enc(packet_length),
    {
        push_le16(out, self.command.code());
        let length: u16 = match self.length {
            Some(v) => v,
            None => packet_length,
        };
        push_le16(out, length);
        push_le32(out, self.session_handle);
        push_le32(out, self.status_code.code());
        push_bytes(out, self.sender_context.as_slice());
        push_le32(out, self.options);
        proof {
            assert(out@ =~= old(out)@ + self@.enc(packet_length));
        }
    }

    /// Whether the header's declared length agrees with a byte count
    /// reported from outside, such as the remaining bytes the transport
    /// handed over.  The declared length stays authoritative for parsing;
    /// this check lets a caller flag a mismatch instead of silently
    /// reconciling it.
    pub fn declared_length_matches(&self, reported: u16) -> (r: bool)
        ensures
            r == (self@.length matches Some(v) && v == reported),
    {
        match self.length {
            Some(v) => v == reported,
            None => false,
        }
    }

    /// Reads a header from `buf` at `pos`.
    pub fn read(buf: &[u8], pos: usize) -> (r: Result<(EncapsulationHeader, usize), CodecError>)
        requires
            pos <= buf@.len(),
        ensures
            resolves(r, pos as int, parse_header(buf@.skip(pos as int))),
            r matches Ok((v, _)) ==> v@.wf(),
    {
        let len = buf.len();
        if len - pos < 24 {
            return Err(CodecError::Truncated);
        }
        proof {
            let s = buf@.skip(pos as int);
            assert forall|i: int| 0 <= i < 24 implies s[i] == buf@[pos + i] by {}
        }
        let command_code = read_le16(buf, pos);
        let command = match EnIpCommand::of_code(command_code) {
            Some(c) => c,
            None => {
                return Err(CodecError::UnknownCommand(command_code));
            },
        };
        let length = read_le16(buf, pos + 2);
        let session_handle = read_le32(buf, pos + 4);
        let status_code_raw = read_le32(buf, pos + 8);
        let status_code = match EncapsStatusCode::of_code(status_code_raw) {
            Some(c) => c,
            None => {
                return Err(CodecError::UnknownEncapsStatus(status_code_raw));
            },
        };
        let sender_context: [u8; 8] = [
            buf[pos + 12],
            buf[pos + 13],
            buf[pos + 14],
            buf[pos + 15],
            buf[pos + 16],
            buf[pos + 17],
            buf[pos + 18],
            buf[pos + 19],
        ];
        let options = read_le32(buf, pos + 20);
        let header = EncapsulationHeader {
            command,
            length: Some(length),
            session_handle,
            status_code,
            sender_context,
            options,
        };
        proof {
            assert(header.sender_context@ =~= buf@.skip(pos as int).subrange(12, 20));
        }
        Ok((header, pos + 24))
    }
}

/// Parsing a written well-formed header yields the same fields, with the
/// length field holding exactly the written length.
pub proof fn lemma_header_roundtrip(h: EncapsulationHeaderView, computed: u16, rest: Seq<u8>)
    requires
        h.wf(),
    ensures
        parse_header(h.enc(computed) + rest) == Ok::<_, CodecError>((h.norm(computed), 24int)),
{
    let e = h.enc(computed);
    let s = e + rest;
    assert(e.len() == 24);
    assert forall|i: int| 0 <= i < 24 implies s[i] == e[i] by {}
    crate::codec::lemma_le16_roundtrip(h.command.spec_code());
    crate::codec::lemma_le16_roundtrip(h.written_length(computed));
    crate::codec::lemma_le32_roundtrip(h.session_handle);
    crate::codec::lemma_le32_roundtrip(h.status_code.spec_code());
    crate::codec::lemma_le32_roundtrip(h.options);
    assert(s.subrange(12, 20) =~= h.sender_context);
}

/// A full encapsulation packet description: the header and the
/// command-specific payload.  The CIP message that may follow is carried by
/// the object assembly, not here; its measured byte count is handed in at
/// write time to compute the header's length field.
#[derive(Debug, Clone, Copy, PartialEq, Eq)]
pub struct EnIpPacketDescription {
    pub header: EncapsulationHeader,
    pub command_specific_data: CommandSpecificData,
}

/// The mathematical model of `EnIpPacketDescription`.
#[verifier::ext_equal]
pub ghost struct EnIpPacketDescriptionView {
    pub header: EncapsulationHeaderView,
    pub command_specific_data: CommandSpecificData,
}

impl View for EnIpPacketDescription {
    type V = EnIpPacketDescriptionView;

    open spec fn view(&self) -> EnIpPacketDescriptionView {
        EnIpPacketDescriptionView {
            header: self.header@,
            command_specific_data: self.command_specific_data,
        }
    }
}

impl EnIpPacketDescriptionView {
    /// The header is well-formed and its command word names the payload
    /// variant actually carried.
    pub open spec fn wf(self) -> bool {
        self.header.wf() && self.header.command == self.command_specific_data.spec_command()
    }

    /// The header's computed length: the payload's byte count plus the
    /// measured byte count of the CIP message that will follow the packet.
    pub open spec fn computed_length(self, cip_length: u16) -> u16 {
        (self.command_specific_data.enc_len() + cip_length) as u16
    }

    /// The wire form, given the measured byte count of the CIP message that
    /// will follow: the header (carrying the computed length), then the
    /// command-specific payload.
    pub open spec fn enc(self, cip_length: u16) -> Seq<u8> {
        self.header.enc(self.computed_length(cip_length)) + self.command_specific_data.enc(
            cip_length,
        )
    }

    /// The packet description this one decodes back to after a write with
    /// measured count `cip_length`.
    pub open spec fn norm(self, cip_length: u16) -> EnIpPacketDescriptionView {
        EnIpPacketDescriptionView {
            header: self.header.norm(self.computed_length(cip_length)),
            command_specific_data: self.command_specific_data.norm(cip_length),
        }
    }
}

/// The spec-level parser for a packet description: the header, then the
/// payload variant the header's command selects.
pub open spec fn parse_packet_description(s: Seq<u8>) -> Result<
    (EnIpPacketDescriptionView, int),
    CodecError,
> {
    match parse_header(s) {
        Err(e) => Err(e),
        Ok((header, _)) => match CommandSpecificData::parse(s.skip(24), header.command) {
            Err(e) => Err(e),
            Ok((csd, n)) => Ok((
                EnIpPacketDescriptionView { header, command_specific_data: csd },
                24 + n,
            )),
        },
    }
}

/// The model of every freshly built packet description: no stored length
/// (the writer computes it), success status, a zero sender context, and no
/// options.
pub open spec fn spec_new_description(
    command: EnIpCommand,
    session_handle: u32,
    command_specific_data: CommandSpecificData,
) -> EnIpPacketDescriptionView {
    EnIpPacketDescriptionView {
        header: EncapsulationHeaderView {
            command,
            length: None,
            session_handle,
            status_code: EncapsStatusCode::Success,
            sender_context: Seq::<u8>::new(8, |i: int| 0u8),
            options: 0u32,
        },
        command_specific_data,
    }
}

impl EnIpPacketDescription {
    /// Builds a packet description with an empty-by-default header: no
    /// stored length (the writer computes it), success status, a zero
    /// sender context, and no options.
    pub fn new(command: EnIpCommand, session_handle: u32, command_specific_data: CommandSpecificData) -> (r:
        EnIpPacketDescription)
        ensures
            r@ == spec_new_description(command, session_handle, command_specific_data),
            r.header.command == command,
            r.header.length is None,
            r.command_specific_data == command_specific_data,
    {
        let sender_context: [u8; 8] = [0, 0, 0, 0, 0, 0, 0, 0];
        proof {
            assert(sender_context@ =~= Seq::<u8>::new(8, |i: int| 0u8));
        }
        let r = EnIpPacketDescription {
            header: EncapsulationHeader {
                command,
                length: None,
                session_handle,
                status_code: EncapsStatusCode::Success,
                sender_context,
                options: 0x00,
            },
            command_specific_data,
        };
        proof {
            assert(r@ =~= spec_new_description(command, session_handle, command_specific_data));
        }
        r
    }

    /// Builds the frame that registers a session: protocol version one, no
    /// option flags, no session handle yet.
    pub fn new_registration_description() -> (r: EnIpPacketDescription)
        ensures
            r@ == spec_new_description(
                EnIpCommand::RegisterSession,
                0u32,
                CommandSpecificData::RegisterSession(
                    RegisterData { protocol_version: 1u16, option_flags: 0u16 },
                ),
            ),
            r@.wf(),
            r.header.length is None,
    {
        EnIpPacketDescription::new(
            EnIpCommand::RegisterSession,
            0,
            CommandSpecificData::RegisterSession(
                RegisterData { protocol_version: 1, option_flags: 0 },
            ),
        )
    }

    /// Builds the frame that unregisters the given session.
    pub fn new_unregistration_description(session_handle: u32) -> (r: EnIpPacketDescription)
        ensures
            r@ == spec_new_description(
                EnIpCommand::UnRegisterSession,
                session_handle,
                CommandSpecificData::UnregisterSession,
            ),
            r@.wf(),
            r.header.length is None,
    {
        EnIpPacketDescription::new(
            EnIpCommand::UnRegisterSession,
            session_handle,
            CommandSpecificData::UnregisterSession,
        )
    }

    /// Builds the send-request/response-data frame for the given session,
    /// with a CIP interface handle of zero.
    pub fn new_cip_description(session_handle: u32, timeout: u16) -> (r: EnIpPacketDescription)
        ensures
            r@ == spec_new_description(
                EnIpCommand::SendRrData,
                session_handle,
                CommandSpecificData::SendRrData(
                    crate::eip::command::RRPacketData {
                        interface_handle: 0u32,
                        timeout,
                        empty_data_packet: crate::eip::description::CommonPacketDescriptor {
                            type_id: crate::eip::description::CommonPacketItemId::NullAddr,
                            packet_length: Some(0u16),
                        },
                        unconnected_data_packet: (
                        crate::eip::description::CommonPacketDescriptor {
                            type_id:
                                crate::eip::description::CommonPacketItemId::UnconnectedMessage,
                            packet_length: None,
                        }),
                    },
                ),
            ),
            r@.wf(),
            r.header.length is None,
    {
        EnIpPacketDescription::new(
            EnIpCommand::SendRrData,
            session_handle,
            CommandSpecificData::new_request(0, timeout),
        )
    }

    /// Appends the wire form in two passes, as the header's length field
    /// can only be known after serializing the level below: the payload is
    /// serialized into a scratch buffer first, its measured size (plus the
    /// CIP message's) is written in the header, then the scratch buffer is
    /// appended.
    pub fn write(&self, out: &mut Vec<u8>, cip_data_length: u16)
        requires
            self@.command_specific_data.enc_len() + cip_data_length <= u16::MAX,
        ensures
            final(out)@ == old(out)@ + self@.enc(cip_data_length),
    {
        let mut scratch: Vec<u8> = Vec::new();
        self.command_specific_data.write(&mut scratch, cip_data_length);
        proof {
            self.command_specific_data.lemma_enc_len(cip_data_length);
        }
        let full_length: u16 = (scratch.len() as u16) + cip_data_length;
        self.header.write(out, full_length);
        out.append(&mut scratch);
        proof {
            assert(out@ =~= old(out)@ + self@.enc(cip_data_length));
        }
    }

    /// Reads a packet description from `buf` at `pos`.
    pub fn read(buf: &[u8], pos: usize) -> (r: Result<(EnIpPacketDescription, usize), CodecError>)
        requires
            pos <= buf@.len(),
        ensures
            resolves(r, pos as int, parse_packet_description(buf@.skip(pos as int))),
            r matches Ok((v, _)) ==> v@.header.wf(),
    {
        let (header, p1) = match EncapsulationHeader::read(buf, pos) {
            Ok(v) => v,
            Err(e) => {
                return Err(e);
            },
        };
        proof {
            crate::codec::lemma_skip_skip(buf@, pos as int, 24);
        }
        let (csd, p2) = match CommandSpecificData::read(buf, p1, header.command) {
            Ok(v) => v,
            Err(e) => {
                return Err(e);
            },
        };
        Ok((EnIpPacketDescription { header, command_specific_data: csd }, p2))
    }
}

/// Parsing a written well-formed packet description yields the same packet,
/// with the header's length field holding the computed length and the
/// descriptors' length fields holding what was written.
#[verifier::rlimit(60)]
pub proof fn lemma_packet_description_roundtrip(
    d: EnIpPacketDescriptionView,
    cip_length: u16,
    rest: Seq<u8>,
)
    requires
        d.wf(),
    ensures
        parse_packet_description(d.enc(cip_length) + rest) == Ok::<_, CodecError>((
            d.norm(cip_length),
            24 + d.command_specific_data.enc_len(),
        )),
{
    let s = d.enc(cip_length) + rest;
    let computed = d.computed_length(cip_length);
    assert(s =~= d.header.enc(computed) + (d.command_specific_data.enc(cip_length) + rest));
    lemma_header_roundtrip(d.header, computed, d.command_specific_data.enc(cip_length) + rest);
    assert(parse_header(s) == Ok::<_, CodecError>((d.header.norm(computed), 24int)));
    assert(s.skip(24) =~= d.command_specific_data.enc(cip_length) + rest);
    crate::eip::command::lemma_command_specific_data_roundtrip(
        d.command_specific_data,
        cip_length,
        rest,
    );
}

} // verus!
