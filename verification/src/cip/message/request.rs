//! The message-router request envelope: a service container, a declared
//! path size in words (back-patched on write), the path, and a payload
//! sized by the enclosing frame's byte budget.

use vstd::prelude::*;

use crate::cip::message::data::CipData;
use crate::cip::message::shared::ServiceContainer;
use crate::cip::path::CipPath;
use crate::codec::{bytes_eq, push_bytes, read_bytes, resolves, CodecError};

verus! {

/// A request payload: either an uninterpreted byte buffer, or a typed value
/// serialized through its `CipData` capability.  Decoding always produces
/// `Raw`.
#[derive(Debug)]
pub enum RequestDataOpt<T: CipData> {
    Raw(Vec<u8>),
    Parsed(T),
}

impl<T: CipData> View for RequestDataOpt<T> {
    type V = Seq<u8>;

    /// The payload's mathematical model is the bytes it serializes to.
    open spec fn view(&self) -> Seq<u8> {
        match self {
            RequestDataOpt::Raw(data) => data@,
            RequestDataOpt::Parsed(value) => value.enc(),
        }
    }
}

impl<T: CipData> RequestDataOpt<T> {
    /// Appends the payload's bytes: a raw buffer verbatim, a parsed value
    /// through its own encoder.
    pub fn write(&self, out: &mut Vec<u8>)
        ensures
            final(out)@ == old(out)@ + self@,
    {
        match self {
            RequestDataOpt::Raw(data) => push_bytes(out, data.as_slice()),
            RequestDataOpt::Parsed(value) => value.write_to(out),
        }
    }

    /// Reads a payload of exactly `length` bytes, always as `Raw`.
    pub fn read(buf: &[u8], pos: usize, length: u16) -> (r: Result<
        (RequestDataOpt<T>, usize),
        CodecError,
    >)
        requires
            pos <= buf@.len(),
        ensures
            resolves(
                r,
                pos as int,
                crate::cip::message::data::parse_payload(buf@.skip(pos as int), length as int),
            ),
    {
        let len = buf.len();
        if len - pos < length as usize {
            return Err(CodecError::Truncated);
        }
        let data = read_bytes(buf, pos, length as usize);
        proof {
            assert(data@ =~= buf@.skip(pos as int).take(length as int));
        }
        Ok((RequestDataOpt::Raw(data), pos + length as usize))
    }
}

impl<T: CipData> PartialEq for RequestDataOpt<T> {
    /// Two payloads are equal when they serialize to the same bytes; a
    /// parsed value is serialized to compare it against a raw buffer.
    fn eq(&self, other: &Self) -> (r: bool) {
        match self {
            RequestDataOpt::Raw(a) => match other {
                RequestDataOpt::Raw(b) => bytes_eq(a, b),
                RequestDataOpt::Parsed(u) => {
                    let mut encoded: Vec<u8> = Vec::new();
                    u.write_to(&mut encoded);
                    bytes_eq(a, &encoded)
                },
            },
            RequestDataOpt::Parsed(t) => {
                let mut encoded: Vec<u8> = Vec::new();
                t.write_to(&mut encoded);
                match other {
                    RequestDataOpt::Raw(b) => bytes_eq(&encoded, b),
                    RequestDataOpt::Parsed(u) => {
                        let mut encoded_other: Vec<u8> = Vec::new();
                        u.write_to(&mut encoded_other);
                        bytes_eq(&encoded, &encoded_other)
                    },
                }
            },
        }
    }
}

impl<T: CipData> vstd::std_specs::cmp::PartialEqSpecImpl for RequestDataOpt<T> {
    open spec fn obeys_eq_spec() -> bool {
        true
    }

    /// What `==` means on payloads: equality of the serialized bytes.
    open spec fn eq_spec(&self, other: &Self) -> bool {
        self@ == other@
    }
}

/// The mathematical model of `RequestData`: the payload reduced to its
/// bytes.
#[verifier::ext_equal]
pub ghost struct RequestDataView {
    pub total_word_size: u8,
    pub cip_path: CipPath,
    pub additional_data: Seq<u8>,
}

impl RequestDataView {
    /// The path is well-formed.
    pub open spec fn wf(self) -> bool {
        self.cip_path.wf()
    }

    /// The word-size byte actually written: the encoded path's byte count
    /// divided by two.  The stored `total_word_size` is a placeholder that
    /// the writer overwrites.
    pub open spec fn written_word_size(self) -> u8 {
        (self.cip_path.enc().len() as int / 2) as u8
    }

    /// The wire form: the back-patched word-size byte, the path, then the
    /// payload bytes.
    pub open spec fn enc(self) -> Seq<u8> {
        seq![self.written_word_size()] + self.cip_path.enc() + self.additional_data
    }

    /// The same request data with its stored word size replaced by the
    /// written one: what a decoder reconstructs from this value's wire
    /// form.
    pub open spec fn norm(self) -> RequestDataView {
        RequestDataView {
            total_word_size: self.written_word_size(),
            cip_path: self.cip_path,
            additional_data: self.additional_data,
        }
    }
}

/// The spec-level parser for request data within a byte budget: the
/// declared word-size byte, the path whose attribute presence that declares,
/// then whatever the budget says is left as payload bytes.
pub open spec fn parse_request_data(s: Seq<u8>, budget: int) -> Result<
    (RequestDataView, int),
    CodecError,
> {
    if s.len() < 1 || budget < 1 {
        Err(CodecError::Truncated)
    } else {
        let w = s[0];
        match CipPath::parse(s.skip(1), w) {
            Err(e) => Err(e),
            Ok((path, np)) => {
                let dl = budget - 1 - 2 * (w as int);
                if dl < 0 {
                    Err(CodecError::Truncated)
                } else if s.len() < 1 + np + dl {
                    Err(CodecError::Truncated)
                } else {
                    Ok((
                        RequestDataView {
                            total_word_size: w,
                            cip_path: path,
                            additional_data: s.subrange(1 + np, 1 + np + dl),
                        },
                        1 + np + dl,
                    ))
                }
            },
        }
    }
}

/// The request data carried by a message-router request.  The stored
/// `total_word_size` is only a placeholder: the writer serializes the path
/// first, measures it, and writes the measured word count in its place.
#[derive(Debug, PartialEq)]
pub struct RequestData<T: CipData> {
    pub total_word_size: u8,
    pub cip_path: CipPath,
    pub additional_data: RequestDataOpt<T>,
}

impl<T: CipData> View for RequestData<T> {
    type V = RequestDataView;

    open spec fn view(&self) -> RequestDataView {
        RequestDataView {
            total_word_size: self.total_word_size,
            cip_path: self.cip_path,
            additional_data: self.additional_data@,
        }
    }
}

impl<T: CipData> RequestData<T> {
    /// Builds request data from an optional placeholder word size, a path,
    /// and an optional typed payload.
    pub fn new(word_size: Option<u8>, path: CipPath, request_data_content: Option<T>) -> (r:
        RequestData<T>)
        ensures
            r.total_word_size == word_size.unwrap_or(0),
            r.cip_path == path,
            r@.additional_data == (match request_data_content {
                None => Seq::<u8>::empty(),
                Some(content) => content.enc(),
            }),
            r@ == (RequestDataView {
                total_word_size: word_size.unwrap_or(0),
                cip_path: path,
                additional_data: match request_data_content {
                    None => Seq::<u8>::empty(),
                    Some(content) => content.enc(),
                },
            }),
    {
        let word: u8 = match word_size {
            Some(w) => w,
            None => 0,
        };
        RequestData {
            total_word_size: word,
            cip_path: path,
            additional_data: match request_data_content {
                None => RequestDataOpt::Raw(Vec::new()),
                Some(content) => RequestDataOpt::Parsed(content),
            },
        }
    }

    /// Appends the wire form, back-patching the word-size byte: the path is
    /// serialized into a scratch buffer first, measured, and the measured
    /// word count is written where the placeholder would have stood.
    pub fn write(&self, out: &mut Vec<u8>)
        requires
            self@.wf(),
        ensures
            final(out)@ == old(out)@ + self@.enc(),
    {
        let mut path_buf: Vec<u8> = Vec::new();
        self.cip_path.write(&mut path_buf);
        proof {
            self.cip_path.lemma_enc_len();
        }
        let word_size = (path_buf.len() / 2) as u8;
        out.push(word_size);
        out.append(&mut path_buf);
        self.additional_data.write(out);
        proof {
            assert(out@ =~= old(out)@ + self@.enc());
        }
    }

    /// Reads request data from `buf` at `pos`; `budget` is the byte count
    /// the enclosing envelope says this structure occupies.
    pub fn read(buf: &[u8], pos: usize, budget: u16) -> (r: Result<
        (RequestData<T>, usize),
        CodecError,
    >)
        requires
            pos <= buf@.len(),
        ensures
            resolves(r, pos as int, parse_request_data(buf@.skip(pos as int), budget as int)),
            r matches Ok((v, _)) ==> v@.wf(),
    {
        let len = buf.len();
        if pos >= len || budget < 1 {
            return Err(CodecError::Truncated);
        }
        let w = buf[pos];
        proof {
            assert(buf@.skip(pos as int)[0] == buf@[pos as int]);
            crate::codec::lemma_skip_skip(buf@, pos as int, 1);
        }
        let (path, p1) = match CipPath::read(buf, pos + 1, w) {
            Ok(v) => v,
            Err(e) => {
                return Err(e);
            },
        };
        let fixed: usize = 1 + 2 * (w as usize);
        if (budget as usize) < fixed {
            return Err(CodecError::Truncated);
        }
        let dl: usize = budget as usize - fixed;
        if len - p1 < dl {
            return Err(CodecError::Truncated);
        }
        let data = read_bytes(buf, p1, dl);
        proof {
            let s = buf@.skip(pos as int);
            let np = p1 - (pos + 1);
            assert(data@ =~= s.subrange(1 + np, 1 + np + dl));
        }
        Ok((
            RequestData {
                total_word_size: w,
                cip_path: path,
                additional_data: RequestDataOpt::Raw(data),
            },
            p1 + dl,
        ))
    }
}

/// Parsing the wire form of well-formed request data, against a budget of
/// exactly its own length, yields the same path and payload bytes, with the
/// word-size field holding the written (measured) word count.  The path's
/// declared word size must single out the attribute segment, since the
/// parser re-derives the attribute's presence from it.
pub proof fn lemma_request_data_roundtrip(m: RequestDataView, rest: Seq<u8>)
    requires
        m.wf(),
        m.cip_path.word_size_separates(),
    ensures
        parse_request_data(m.enc() + rest, m.enc().len() as int) == Ok::<_, CodecError>((
            m.norm(),
            m.enc().len() as int,
        )),
{
    let s = m.enc() + rest;
    let w = m.written_word_size();
    let pl = m.cip_path.enc().len() as int;
    m.cip_path.lemma_enc_len();
    assert(w as int == pl / 2);
    assert(2 * (w as int) == pl);
    assert(s[0] == w);
    assert(s.skip(1) =~= m.cip_path.enc() + (m.additional_data + rest));
    assert((w == 3) <==> m.cip_path.attribute_id_segment is Some);
    crate::cip::path::lemma_path_roundtrip(m.cip_path, w, m.additional_data + rest);
    assert(CipPath::parse(s.skip(1), w) == Ok::<_, CodecError>((m.cip_path, pl)));
    let budget = m.enc().len() as int;
    let dl = budget - 1 - 2 * (w as int);
    assert(dl == m.additional_data.len());
    assert(s.subrange(1 + pl, 1 + pl + dl) =~= m.additional_data);
}

/// The path word-size invariant: for every path, the word-size byte a
/// request writes equals the serialized path's byte count divided by two.
pub proof fn lemma_word_size_invariant(m: RequestDataView)
    ensures
        m.enc()[0] == m.cip_path.enc().len() as int / 2,
{
    let c = m.cip_path.class_id_segment.enc().len();
    let i = m.cip_path.instance_id_segment.enc().len();
    let a = match m.cip_path.attribute_id_segment {
        Some(seg) => seg.enc().len(),
        None => 0nat,
    };
    assert(c <= 4 && i <= 4 && a <= 4);
    assert(m.cip_path.enc().len() <= 12);
    assert(m.enc()[0] == m.written_word_size());
}

/// The message-router request envelope: a service container byte followed
/// by the request data.
#[derive(Debug, PartialEq)]
pub struct MessageRouterRequest<T: CipData> {
    pub service_container: ServiceContainer,
    pub request_data: RequestData<T>,
}

/// The mathematical model of `MessageRouterRequest`.
#[verifier::ext_equal]
pub ghost struct MessageRouterRequestView {
    pub service_container: ServiceContainer,
    pub request_data: RequestDataView,
}

impl MessageRouterRequestView {
    /// The container and the request data are well-formed.
    pub open spec fn wf(self) -> bool {
        self.service_container.wf() && self.request_data.wf()
    }

    /// The wire form: the packed service container byte, then the request
    /// data.
    pub open spec fn enc(self) -> Seq<u8> {
        seq![self.service_container.spec_byte()] + self.request_data.enc()
    }

    /// The same request with its word-size field replaced by the written
    /// one: what a decoder reconstructs from this value's wire form.
    pub open spec fn norm(self) -> MessageRouterRequestView {
        MessageRouterRequestView {
            service_container: self.service_container,
            request_data: self.request_data.norm(),
        }
    }
}

impl<T: CipData> View for MessageRouterRequest<T> {
    type V = MessageRouterRequestView;

    open spec fn view(&self) -> MessageRouterRequestView {
        MessageRouterRequestView {
            service_container: self.service_container,
            request_data: self.request_data@,
        }
    }
}

/// The spec-level parser for a message-router request within a byte budget.
/// The request side carries no response-bit check: any container byte is
/// accepted.
pub open spec fn parse_message_router_request(s: Seq<u8>, budget: int) -> Result<
    (MessageRouterRequestView, int),
    CodecError,
> {
    if s.len() < 1 || budget < 1 {
        Err(CodecError::Truncated)
    } else {
        match parse_request_data(s.skip(1), budget - 1) {
            Err(e) => Err(e),
            Ok((rd, n)) => Ok((
                MessageRouterRequestView {
                    service_container: ServiceContainer::spec_of_byte(s[0]),
                    request_data: rd,
                },
                1 + n,
            )),
        }
    }
}

impl MessageRouterRequest<u8> {
    /// Builds a request with no payload.
    pub fn new(service_code: crate::cip::message::shared::ServiceCode, path: CipPath) -> (r:
        MessageRouterRequest<u8>)
        ensures
            r.service_container == (ServiceContainer { service: service_code, response: false }),
            r.request_data.cip_path == path,
            r.request_data.total_word_size == 0,
            r@.request_data.additional_data == Seq::<u8>::empty(),
    {
        Self::new_data(service_code, path, None)
    }
}

impl<T: CipData> MessageRouterRequest<T> {
    /// Builds a request from a service code, a path, and an optional typed
    /// payload.  The request/response flag is clear: this is a request.
    pub fn new_data(
        service_code: crate::cip::message::shared::ServiceCode,
        path: CipPath,
        request_data_content: Option<T>,
    ) -> (r: MessageRouterRequest<T>)
        ensures
            r.service_container == (ServiceContainer { service: service_code, response: false }),
            r.request_data.cip_path == path,
            r.request_data.total_word_size == 0,
            r@.request_data.additional_data == (match request_data_content {
                None => Seq::<u8>::empty(),
                Some(content) => content.enc(),
            }),
    {
        MessageRouterRequest {
            service_container: ServiceContainer::new(service_code, false),
            request_data: RequestData::new(None, path, request_data_content),
        }
    }

    /// Appends the wire form of the request.
    pub fn write(&self, out: &mut Vec<u8>)
        requires
            self@.wf(),
        ensures
            final(out)@ == old(out)@ + self@.enc(),
    {
        out.push(self.service_container.byte());
        self.request_data.write(out);
        proof {
            assert(out@ =~= old(out)@ + self@.enc());
        }
    }

    /// Reads a request from `buf` at `pos`; `budget` is the byte count the
    /// enclosing frame says the whole envelope occupies.
    pub fn read(buf: &[u8], pos: usize, budget: u16) -> (r: Result<
        (MessageRouterRequest<T>, usize),
        CodecError,
    >)
        requires
            pos <= buf@.len(),
        ensures
            resolves(
                r,
                pos as int,
                parse_message_router_request(buf@.skip(pos as int), budget as int),
            ),
            r matches Ok((v, _)) ==> v@.wf(),
    {
        let len = buf.len();
        if pos >= len || budget < 1 {
            return Err(CodecError::Truncated);
        }
        let container = ServiceContainer::of_byte(buf[pos]);
        proof {
            assert(buf@.skip(pos as int)[0] == buf@[pos as int]);
            crate::codec::lemma_skip_skip(buf@, pos as int, 1);
        }
        let (rd, p1) = match RequestData::<T>::read(buf, pos + 1, budget - 1) {
            Ok(v) => v,
            Err(e) => {
                return Err(e);
            },
        };
        Ok((MessageRouterRequest { service_container: container, request_data: rd }, p1))
    }
}

/// Parsing the wire form of a well-formed message-router request, against a
/// budget of exactly its own length, yields the same request with its
/// word-size field holding the written word count.
pub proof fn lemma_message_router_request_roundtrip(m: MessageRouterRequestView, rest: Seq<u8>)
    requires
        m.wf(),
        m.request_data.cip_path.word_size_separates(),
    ensures
        parse_message_router_request(m.enc() + rest, m.enc().len() as int) == Ok::<
            _,
            CodecError,
        >((m.norm(), m.enc().len() as int)),
{
    let s = m.enc() + rest;
    assert(s[0] == m.service_container.spec_byte());
    assert(s.skip(1) =~= m.request_data.enc() + rest);
    lemma_request_data_roundtrip(m.request_data, rest);
    crate::cip::message::shared::lemma_service_container_roundtrip(m.service_container);
}

} // verus!
