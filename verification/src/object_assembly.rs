//! The top-level orchestrator: ties an encapsulation frame to an optional
//! message-router payload.  Writing is a two-pass operation — the CIP
//! message is serialized into a scratch buffer first so the frame can carry
//! its measured size — and reading is budget-driven: the frame's
//! unconnected-data item says how many bytes of CIP message to parse.

use vstd::prelude::*;

use crate::cip::message::data::CipData;
use crate::cip::message::request::{
    parse_message_router_request, MessageRouterRequest, MessageRouterRequestView,
};
use crate::cip::message::response::{
    parse_message_router_response, MessageRouterResponse, MessageRouterResponseView,
};
use crate::cip::message::shared::ServiceCode;
use crate::cip::path::CipPath;
use crate::codec::{le16_val, CodecError};
use crate::eip::command::CommandSpecificData;
use crate::eip::packet::{
    parse_packet_description, EnIpPacketDescription, EnIpPacketDescriptionView,
};

verus! {

/// A request frame: the packet description and, for send-request-data
/// commands, the message-router request it carries.
#[derive(Debug, PartialEq)]
pub struct RequestObjectAssembly<T: CipData> {
    pub packet_description: EnIpPacketDescription,
    pub cip_message: Option<MessageRouterRequest<T>>,
}

/// The mathematical model of `RequestObjectAssembly`.
#[verifier::ext_equal]
pub ghost struct RequestObjectAssemblyView {
    pub packet_description: EnIpPacketDescriptionView,
    pub cip_message: Option<MessageRouterRequestView>,
}

impl<T: CipData> View for RequestObjectAssembly<T> {
    type V = RequestObjectAssemblyView;

    open spec fn view(&self) -> RequestObjectAssemblyView {
        RequestObjectAssemblyView {
            packet_description: self.packet_description@,
            cip_message: match self.cip_message {
                Some(m) => Some(m@),
                None => None,
            },
        }
    }
}

impl RequestObjectAssemblyView {
    /// The bytes of the carried CIP message; empty when there is none.
    pub open spec fn cip_enc(self) -> Seq<u8> {
        match self.cip_message {
            Some(m) => m.enc(),
            None => Seq::<u8>::empty(),
        }
    }

    /// The packet description is well-formed, the carried message (if any)
    /// is, and a message is carried only under a send-request-data command.
    pub open spec fn wf(self) -> bool {
        &&& self.packet_description.wf()
        &&& match self.cip_message {
            Some(m) => m.wf(),
            None => true,
        }
        &&& self.cip_message is Some ==> self.packet_description.command_specific_data
            is SendRrData
    }

    /// The frame's lengths fit their sixteen-bit wire fields.
    pub open spec fn fits(self) -> bool {
        self.packet_description.command_specific_data.enc_len() + self.cip_enc().len()
            <= u16::MAX
    }

    /// The wire form: the packet description, whose header length and
    /// unconnected-data length carry the measured size of the CIP message,
    /// then the message itself.
    pub open spec fn enc(self) -> Seq<u8> {
        self.packet_description.enc(self.cip_enc().len() as u16) + self.cip_enc()
    }

    /// The assembly this one decodes back to: computed lengths filled in,
    /// the carried message normalized.
    pub open spec fn norm(self) -> RequestObjectAssemblyView {
        RequestObjectAssemblyView {
            packet_description: self.packet_description.norm(self.cip_enc().len() as u16),
            cip_message: match self.cip_message {
                Some(m) => Some(m.norm()),
                None => None,
            },
        }
    }
}

/// The spec-level parser for a request frame.  For a send-request-data
/// command the unconnected-data item's declared length is the byte budget
/// for the inner message; a failure to parse the inner message is
/// tolerated and yields a frame without one, never an error.
pub open spec fn parse_request_object_assembly(s: Seq<u8>) -> Result<
    (RequestObjectAssemblyView, int),
    CodecError,
> {
    match parse_packet_description(s) {
        Err(e) => Err(e),
        Ok((pd, n)) => match pd.command_specific_data {
            CommandSpecificData::SendRrData(rr) => {
                let budget = match rr.unconnected_data_packet.packet_length {
                    Some(v) => v,
                    None => 0u16,
                };
                match parse_message_router_request(s.skip(n), budget as int) {
                    Ok((m, nm)) => Ok((
                        RequestObjectAssemblyView { packet_description: pd, cip_message: Some(m) },
                        n + nm,
                    )),
                    Err(_) => Ok((
                        RequestObjectAssemblyView { packet_description: pd, cip_message: None },
                        n,
                    )),
                }
            },
            _ => Ok((
                RequestObjectAssemblyView { packet_description: pd, cip_message: None },
                n,
            )),
        },
    }
}

impl<T: CipData> RequestObjectAssembly<T> {
    /// Builds the session registration request.
    pub fn new_registration() -> (r: RequestObjectAssembly<T>)
        ensures
            r.packet_description@ == crate::eip::packet::spec_new_description(
                crate::eip::command::EnIpCommand::RegisterSession,
                0u32,
                CommandSpecificData::RegisterSession(
                    crate::eip::command::RegisterData { protocol_version: 1u16, option_flags: 0u16 },
                ),
            ),
            r.packet_description.header.length is None,
            r.cip_message is None,
            r@.wf(),
            r@.fits(),
    {
        RequestObjectAssembly {
            packet_description: EnIpPacketDescription::new_registration_description(),
            cip_message: None,
        }
    }

    /// Builds the session unregistration request for the given session.
    pub fn new_unregistration(session_handle: u32) -> (r: RequestObjectAssembly<T>)
        ensures
            r.packet_description@ == crate::eip::packet::spec_new_description(
                crate::eip::command::EnIpCommand::UnRegisterSession,
                session_handle,
                CommandSpecificData::UnregisterSession,
            ),
            r.packet_description.header.length is None,
            r.cip_message is None,
            r@.wf(),
            r@.fits(),
    {
        RequestObjectAssembly {
            packet_description: EnIpPacketDescription::new_unregistration_description(
                session_handle,
            ),
            cip_message: None,
        }
    }

    /// Appends the wire form: the CIP message is serialized into a scratch
    /// buffer first, the frame is written carrying its measured size, then
    /// the scratch buffer is appended.
    pub fn write(&self, out: &mut Vec<u8>)
        requires
            self@.wf(),
            self@.fits(),
        ensures
            final(out)@ == old(out)@ + self@.enc(),
    {
        let mut scratch: Vec<u8> = Vec::new();
        match &self.cip_message {
            Some(m) => m.write(&mut scratch),
            None => (),
        }
        let cip_length = scratch.len() as u16;
        self.packet_description.write(out, cip_length);
        out.append(&mut scratch);
        proof {
            assert(out@ =~= old(out)@ + self@.enc());
        }
    }

    /// Reads a request frame from `buf` at `pos`.  When the frame carries a
    /// send-request-data command, the inner message is parsed from exactly
    /// the byte budget the unconnected-data item declares; if that parse
    /// fails the frame is returned without a message.
    pub fn read(buf: &[u8], pos: usize) -> (r: Result<(RequestObjectAssembly<T>, usize), CodecError>)
        requires
            pos <= buf@.len(),
        ensures
            crate::codec::resolves(
                r,
                pos as int,
                parse_request_object_assembly(buf@.skip(pos as int)),
            ),
    {
        let (pd, p1) = match EnIpPacketDescription::read(buf, pos) {
            Ok(v) => v,
            Err(e) => {
                return Err(e);
            },
        };
        proof {
            crate::codec::lemma_skip_skip(buf@, pos as int, p1 - pos);
        }
        match &pd.command_specific_data {
            CommandSpecificData::SendRrData(rr) => {
                let budget: u16 = match rr.unconnected_data_packet.packet_length {
                    Some(v) => v,
                    None => 0,
                };
                match MessageRouterRequest::<T>::read(buf, p1, budget) {
                    Ok((m, p2)) => Ok((
                        RequestObjectAssembly { packet_description: pd, cip_message: Some(m) },
                        p2,
                    )),
                    Err(_) => Ok((
                        RequestObjectAssembly { packet_description: pd, cip_message: None },
                        p1,
                    )),
                }
            },
            _ => Ok((RequestObjectAssembly { packet_description: pd, cip_message: None }, p1)),
        }
    }
}

impl RequestObjectAssembly<u8> {
    /// Builds the request that reads the identity object: a get-attributes-
    /// all request addressed to class one, instance one.
    pub fn new_identity(session_handle: u32) -> (r: RequestObjectAssembly<u8>)
        ensures
            r.packet_description.header@ == (crate::eip::packet::spec_new_description(
                crate::eip::command::EnIpCommand::SendRrData,
                session_handle,
                r.packet_description.command_specific_data,
            )).header,
            r.packet_description.command_specific_data == CommandSpecificData::SendRrData(
                crate::eip::command::RRPacketData {
                    interface_handle: 0u32,
                    timeout: 0u16,
                    empty_data_packet: (crate::eip::description::CommonPacketDescriptor {
                        type_id: crate::eip::description::CommonPacketItemId::NullAddr,
                        packet_length: Some(0u16),
                    }),
                    unconnected_data_packet: (crate::eip::description::CommonPacketDescriptor {
                        type_id: crate::eip::description::CommonPacketItemId::UnconnectedMessage,
                        packet_length: None,
                    }),
                },
            ),
            r@.cip_message matches Some(m) && m == (MessageRouterRequestView {
                service_container: (crate::cip::message::shared::ServiceContainer {
                    service: ServiceCode::GetAttributeAll,
                    response: false,
                }),
                request_data: (crate::cip::message::request::RequestDataView {
                    total_word_size: 0u8,
                    cip_path: CipPath::spec_new(0x1, 0x1),
                    additional_data: Seq::<u8>::empty(),
                }),
            }),
            r@.wf(),
            r@.fits(),
    {
        Self::new_service_request(
            session_handle,
            CipPath::new(0x1, 0x1),
            ServiceCode::GetAttributeAll,
            None,
        )
    }
}

impl<T: CipData> RequestObjectAssembly<T> {
    /// Builds a generic service request: a send-request-data frame carrying
    /// a message-router request for the given path and service, with an
    /// optional typed payload.
    pub fn new_service_request(
        session_handle: u32,
        request_path: CipPath,
        service_code: ServiceCode,
        data: Option<T>,
    ) -> (r: RequestObjectAssembly<T>)
        requires
            request_path.wf(),
            service_code.wf(),
        ensures
            r.packet_description.header@ == (crate::eip::packet::spec_new_description(
                crate::eip::command::EnIpCommand::SendRrData,
                session_handle,
                r.packet_description.command_specific_data,
            )).header,
            r.packet_description.command_specific_data == CommandSpecificData::SendRrData(
                crate::eip::command::RRPacketData {
                    interface_handle: 0u32,
                    timeout: 0u16,
                    empty_data_packet: (crate::eip::description::CommonPacketDescriptor {
                        type_id: crate::eip::description::CommonPacketItemId::NullAddr,
                        packet_length: Some(0u16),
                    }),
                    unconnected_data_packet: (crate::eip::description::CommonPacketDescriptor {
                        type_id: crate::eip::description::CommonPacketItemId::UnconnectedMessage,
                        packet_length: None,
                    }),
                },
            ),
            r@.cip_message matches Some(m) && m == (MessageRouterRequestView {
                service_container: (crate::cip::message::shared::ServiceContainer {
                    service: service_code,
                    response: false,
                }),
                request_data: (crate::cip::message::request::RequestDataView {
                    total_word_size: 0u8,
                    cip_path: request_path,
                    additional_data: match data {
                        None => Seq::<u8>::empty(),
                        Some(content) => content.enc(),
                    },
                }),
            }),
            r@.wf(),
    {
        RequestObjectAssembly {
            packet_description: EnIpPacketDescription::new_cip_description(session_handle, 0),
            cip_message: Some(MessageRouterRequest::new_data(service_code, request_path, data)),
        }
    }
}

/// Parsing the wire form of a well-formed request frame yields the same
/// frame with its computed fields filled in: the header length, the
/// unconnected-data length, and the path word size all hold their measured
/// values, and a typed payload comes back as its bytes.
#[verifier::rlimit(100)]
#[verifier::spinoff_prover]
pub proof fn lemma_request_assembly_roundtrip(a: RequestObjectAssemblyView, rest: Seq<u8>)
    requires
        a.wf(),
        a.fits(),
        a.cip_message matches Some(m) ==> m.request_data.cip_path.word_size_separates(),
        a.packet_description.command_specific_data is SendRrData <==> a.cip_message is Some,
    ensures
        parse_request_object_assembly(a.enc() + rest) == Ok::<_, CodecError>((
            a.norm(),
            a.enc().len() as int,
        )),
{
    let cl = a.cip_enc().len() as u16;
    let pd = a.packet_description;
    let n = 24 + pd.command_specific_data.enc_len();
    let s = a.enc() + rest;
    let tail = a.cip_enc() + rest;
    assert(pd.enc(cl).len() == n) by {
        pd.command_specific_data.lemma_enc_len(cl);
    }
    assert(s =~= pd.enc(cl) + tail);
    assert(parse_packet_description(s) == Ok::<_, CodecError>((pd.norm(cl), n))) by {
        crate::eip::packet::lemma_packet_description_roundtrip(pd, cl, tail);
    }
    assert(s.skip(n) =~= tail);
    assert(a.enc().len() == n + a.cip_enc().len());
    match a.cip_message {
        Some(m) => {
            let rr = pd.command_specific_data->SendRrData_0;
            let rr_n = pd.norm(cl).command_specific_data->SendRrData_0;
            assert(m.enc().len() >= 6) by {
                m.request_data.cip_path.lemma_enc_len();
            }
            assert(cl as int == m.enc().len());
            assert(rr_n.unconnected_data_packet.packet_length == Some(cl)) by {
                assert(rr.unconnected_data_packet.written_length(cl) == cl);
            }
            assert(parse_message_router_request(s.skip(n), cl as int) == Ok::<_, CodecError>((
                m.norm(),
                m.enc().len() as int,
            ))) by {
                crate::cip::message::request::lemma_message_router_request_roundtrip(m, rest);
                assert(s.skip(n) == m.enc() + rest);
            }
            assert(parse_request_object_assembly(s) == Ok::<_, CodecError>((
                a.norm(),
                a.enc().len() as int,
            )));
        },
        None => {
            assert(pd.norm(cl).command_specific_data.spec_command()
                == pd.command_specific_data.spec_command());
            assert(parse_request_object_assembly(s) == Ok::<_, CodecError>((
                a.norm(),
                a.enc().len() as int,
            )));
        },
    }
}

/// Round-trip for request frames: decoding the encoding of a frame whose
/// computed fields already hold their measured values yields the frame
/// itself, exactly.
pub proof fn lemma_request_assembly_exact_roundtrip(a: RequestObjectAssemblyView)
    requires
        a.wf(),
        a.fits(),
        a.cip_message matches Some(m) ==> m.request_data.cip_path.word_size_separates(),
        a.packet_description.command_specific_data is SendRrData <==> a.cip_message is Some,
        a.norm() == a,
    ensures
        parse_request_object_assembly(a.enc()) == Ok::<_, CodecError>((a, a.enc().len() as int)),
{
    lemma_request_assembly_roundtrip(a, Seq::<u8>::empty());
    assert(a.enc() + Seq::<u8>::empty() =~= a.enc());
}

/// The header length invariant for request frames: when the header carries
/// no stored length, the two length bytes the writer emits hold exactly the
/// byte count of everything after the 24-byte header.
pub proof fn lemma_request_header_length_invariant(a: RequestObjectAssemblyView)
    requires
        a.wf(),
        a.fits(),
        a.packet_description.header.length is None,
    ensures
        le16_val(a.enc()[2], a.enc()[3]) == a.enc().len() - 24,
{
    let cl = a.cip_enc().len() as u16;
    let pd = a.packet_description;
    let computed = pd.computed_length(cl);
    let h = pd.header;
    pd.command_specific_data.lemma_enc_len(cl);
    assert(a.enc().len() == 24 + pd.command_specific_data.enc_len() + a.cip_enc().len());
    assert(h.enc(computed)[2] == crate::codec::le16(computed)[0]);
    assert(h.enc(computed)[3] == crate::codec::le16(computed)[1]);
    assert(a.enc()[2] == h.enc(computed)[2]);
    assert(a.enc()[3] == h.enc(computed)[3]);
    crate::codec::lemma_le16_roundtrip(computed);
}

/// A response frame: the packet description and, for send-response-data
/// commands, the message-router response it carries.
#[derive(Debug, PartialEq)]
pub struct ResponseObjectAssembly<T: CipData> {
    pub packet_description: EnIpPacketDescription,
    pub cip_message: Option<MessageRouterResponse<T>>,
}

/// The mathematical model of `ResponseObjectAssembly`.
#[verifier::ext_equal]
pub ghost struct ResponseObjectAssemblyView {
    pub packet_description: EnIpPacketDescriptionView,
    pub cip_message: Option<MessageRouterResponseView>,
}

impl<T: CipData> View for ResponseObjectAssembly<T> {
    type V = ResponseObjectAssemblyView;

    open spec fn view(&self) -> ResponseObjectAssemblyView {
        ResponseObjectAssemblyView {
            packet_description: self.packet_description@,
            cip_message: match self.cip_message {
                Some(m) => Some(m@),
                None => None,
            },
        }
    }
}

impl ResponseObjectAssemblyView {
    /// The bytes of the carried CIP message; empty when there is none.
    pub open spec fn cip_enc(self) -> Seq<u8> {
        match self.cip_message {
            Some(m) => m.enc(),
            None => Seq::<u8>::empty(),
        }
    }

    /// The packet description is well-formed, the carried message (if any)
    /// is, and a message is carried only under a send-request-data command.
    pub open spec fn wf(self) -> bool {
        &&& self.packet_description.wf()
        &&& match self.cip_message {
            Some(m) => m.wf(),
            None => true,
        }
        &&& self.cip_message is Some ==> self.packet_description.command_specific_data
            is SendRrData
    }

    /// The frame's lengths fit their sixteen-bit wire fields.
    pub open spec fn fits(self) -> bool {
        self.packet_description.command_specific_data.enc_len() + self.cip_enc().len()
            <= u16::MAX
    }

    /// The wire form: the packet description, then the carried message.
    pub open spec fn enc(self) -> Seq<u8> {
        self.packet_description.enc(self.cip_enc().len() as u16) + self.cip_enc()
    }

    /// The assembly this one decodes back to: computed lengths filled in.
    pub open spec fn norm(self) -> ResponseObjectAssemblyView {
        ResponseObjectAssemblyView {
            packet_description: self.packet_description.norm(self.cip_enc().len() as u16),
            cip_message: self.cip_message,
        }
    }
}

/// The spec-level parser for a response frame; as for requests, a failure
/// to parse the inner message yields a frame without one.
pub open spec fn parse_response_object_assembly(s: Seq<u8>) -> Result<
    (ResponseObjectAssemblyView, int),
    CodecError,
> {
    match parse_packet_description(s) {
        Err(e) => Err(e),
        Ok((pd, n)) => match pd.command_specific_data {
            CommandSpecificData::SendRrData(rr) => {
                let budget = match rr.unconnected_data_packet.packet_length {
                    Some(v) => v,
                    None => 0u16,
                };
                match parse_message_router_response(s.skip(n), budget as int) {
                    Ok((m, nm)) => Ok((
                        ResponseObjectAssemblyView {
                            packet_description: pd,
                            cip_message: Some(m),
                        },
                        n + nm,
                    )),
                    Err(_) => Ok((
                        ResponseObjectAssemblyView { packet_description: pd, cip_message: None },
                        n,
                    )),
                }
            },
            _ => Ok((
                ResponseObjectAssemblyView { packet_description: pd, cip_message: None },
                n,
            )),
        },
    }
}

impl<T: CipData> ResponseObjectAssembly<T> {
    /// Appends the wire form: the CIP message is serialized into a scratch
    /// buffer first, the frame is written carrying its measured size, then
    /// the scratch buffer is appended.
    pub fn write(&self, out: &mut Vec<u8>)
        requires
            self@.wf(),
            self@.fits(),
        ensures
            final(out)@ == old(out)@ + self@.enc(),
    {
        let mut scratch: Vec<u8> = Vec::new();
        match &self.cip_message {
            Some(m) => m.write(&mut scratch),
            None => (),
        }
        let cip_length = scratch.len() as u16;
        self.packet_description.write(out, cip_length);
        out.append(&mut scratch);
        proof {
            assert(out@ =~= old(out)@ + self@.enc());
        }
    }

    /// Reads a response frame from `buf` at `pos`.
    pub fn read(buf: &[u8], pos: usize) -> (r: Result<
        (ResponseObjectAssembly<T>, usize),
        CodecError,
    >)
        requires
            pos <= buf@.len(),
        ensures
            crate::codec::resolves(
                r,
                pos as int,
                parse_response_object_assembly(buf@.skip(pos as int)),
            ),
    {
        let (pd, p1) = match EnIpPacketDescription::read(buf, pos) {
            Ok(v) => v,
            Err(e) => {
                return Err(e);
            },
        };
        proof {
            crate::codec::lemma_skip_skip(buf@, pos as int, p1 - pos);
        }
        match &pd.command_specific_data {
            CommandSpecificData::SendRrData(rr) => {
                let budget: u16 = match rr.unconnected_data_packet.packet_length {
                    Some(v) => v,
                    None => 0,
                };
                match MessageRouterResponse::<T>::read(buf, p1, budget) {
                    Ok((m, p2)) => Ok((
                        ResponseObjectAssembly { packet_description: pd, cip_message: Some(m) },
                        p2,
                    )),
                    Err(_) => Ok((
                        ResponseObjectAssembly { packet_description: pd, cip_message: None },
                        p1,
                    )),
                }
            },
            _ => Ok((ResponseObjectAssembly { packet_description: pd, cip_message: None }, p1)),
        }
    }
}

/// Parsing the wire form of a well-formed response frame yields the same
/// frame with its computed fields filled in.
#[verifier::rlimit(100)]
#[verifier::spinoff_prover]
pub proof fn lemma_response_assembly_roundtrip(a: ResponseObjectAssemblyView, rest: Seq<u8>)
    requires
        a.wf(),
        a.fits(),
        a.packet_description.command_specific_data is SendRrData <==> a.cip_message is Some,
    ensures
        parse_response_object_assembly(a.enc() + rest) == Ok::<_, CodecError>((
            a.norm(),
            a.enc().len() as int,
        )),
{
    let cl = a.cip_enc().len() as u16;
    let pd = a.packet_description;
    let n = 24 + pd.command_specific_data.enc_len();
    let s = a.enc() + rest;
    let tail = a.cip_enc() + rest;
    assert(pd.enc(cl).len() == n) by {
        pd.command_specific_data.lemma_enc_len(cl);
    }
    assert(s =~= pd.enc(cl) + tail);
    assert(parse_packet_description(s) == Ok::<_, CodecError>((pd.norm(cl), n))) by {
        crate::eip::packet::lemma_packet_description_roundtrip(pd, cl, tail);
    }
    assert(s.skip(n) =~= tail);
    assert(a.enc().len() == n + a.cip_enc().len());
    match a.cip_message {
        Some(m) => {
            let rr = pd.command_specific_data->SendRrData_0;
            let rr_n = pd.norm(cl).command_specific_data->SendRrData_0;
            assert(m.enc().len() >= 4);
            assert(cl as int == m.enc().len());
            assert(rr_n.unconnected_data_packet.packet_length == Some(cl)) by {
                assert(rr.unconnected_data_packet.written_length(cl) == cl);
            }
            assert(parse_message_router_response(s.skip(n), cl as int) == Ok::<_, CodecError>((
                m,
                m.enc().len() as int,
            ))) by {
                crate::cip::message::response::lemma_message_router_response_roundtrip(m, rest);
                assert(s.skip(n) == m.enc() + rest);
            }
            assert(parse_response_object_assembly(s) == Ok::<_, CodecError>((
                a.norm(),
                a.enc().len() as int,
            )));
        },
        None => {
            assert(pd.norm(cl).command_specific_data.spec_command()
                == pd.command_specific_data.spec_command());
            assert(parse_response_object_assembly(s) == Ok::<_, CodecError>((
                a.norm(),
                a.enc().len() as int,
            )));
        },
    }
}

/// Round-trip for response frames: decoding the encoding of a frame whose
/// computed fields already hold their measured values yields the frame
/// itself, exactly.
pub proof fn lemma_response_assembly_exact_roundtrip(a: ResponseObjectAssemblyView)
    requires
        a.wf(),
        a.fits(),
        a.packet_description.command_specific_data is SendRrData <==> a.cip_message is Some,
        a.norm() == a,
    ensures
        parse_response_object_assembly(a.enc()) == Ok::<_, CodecError>((a, a.enc().len() as int)),
{
    lemma_response_assembly_roundtrip(a, Seq::<u8>::empty());
    assert(a.enc() + Seq::<u8>::empty() =~= a.enc());
}

/// The header length invariant for response frames: when the header
/// carries no stored length, the two length bytes the writer emits hold
/// exactly the byte count of everything after the 24-byte header.
pub proof fn lemma_response_header_length_invariant(a: ResponseObjectAssemblyView)
    requires
        a.wf(),
        a.fits(),
        a.packet_description.header.length is None,
    ensures
        le16_val(a.enc()[2], a.enc()[3]) == a.enc().len() - 24,
{
    let cl = a.cip_enc().len() as u16;
    let pd = a.packet_description;
    let computed = pd.computed_length(cl);
    let h = pd.header;
    pd.command_specific_data.lemma_enc_len(cl);
    assert(a.enc().len() == 24 + pd.command_specific_data.enc_len() + a.cip_enc().len());
    assert(h.enc(computed)[2] == crate::codec::le16(computed)[0]);
    assert(h.enc(computed)[3] == crate::codec::le16(computed)[1]);
    assert(a.enc()[2] == h.enc(computed)[2]);
    assert(a.enc()[3] == h.enc(computed)[3]);
    crate::codec::lemma_le16_roundtrip(computed);
}

} // verus!
