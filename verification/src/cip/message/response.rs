//! The message-router response envelope: a service container whose
//! response bit must be set, a status, and a payload sized by the enclosing
//! frame's byte budget.

use vstd::prelude::*;

use crate::cip::message::data::{parse_payload, CipData, CipDataOpt};
use crate::cip::message::shared::ServiceContainer;
use crate::codec::{resolves, CodecError};

verus! {

/// The general status of a message-router response.  Only success is
/// recognized; any other status byte fails the decode.
#[derive(Debug, Clone, Copy, PartialEq, Eq)]
pub enum ResponseStatusCode {
    Success,
}

impl ResponseStatusCode {
    /// The status byte.
    pub open spec fn spec_byte(self) -> u8 {
        0
    }

    /// The status byte.
    pub fn byte(&self) -> (r: u8)
        ensures
            r == self.spec_byte(),
    {
        0
    }
}

/// The mathematical model of `ResponseData`: the payload reduced to its
/// bytes.
#[verifier::ext_equal]
pub ghost struct ResponseDataView {
    pub status: ResponseStatusCode,
    pub additional_status_size: u8,
    pub data: Seq<u8>,
}

impl ResponseDataView {
    /// The wire form: one padding byte, the status byte, the
    /// additional-status size, then the payload bytes.
    pub open spec fn enc(self) -> Seq<u8> {
        seq![0u8, self.status.spec_byte(), self.additional_status_size] + self.data
    }
}

/// The spec-level parser for response data within a byte budget: a padding
/// byte (read and discarded), the status byte, the additional-status size,
/// then whatever the budget says is left as payload bytes.
pub open spec fn parse_response_data(s: Seq<u8>, budget: int) -> Result<
    (ResponseDataView, int),
    CodecError,
> {
    if s.len() < 3 || budget < 3 {
        Err(CodecError::Truncated)
    } else if s[1] != 0 {
        Err(CodecError::UnknownResponseStatus(s[1]))
    } else {
        let dl = budget - 3;
        match parse_payload(s.skip(3), dl) {
            Err(e) => Err(e),
            Ok((data, _)) => Ok((
                ResponseDataView {
                    status: ResponseStatusCode::Success,
                    additional_status_size: s[2],
                    data,
                },
                3 + dl,
            )),
        }
    }
}

/// The response data carried by a message-router response.
#[derive(Debug, PartialEq)]
pub struct ResponseData<T: CipData> {
    pub status: ResponseStatusCode,
    pub additional_status_size: u8,
    pub data: CipDataOpt<T>,
}

impl<T: CipData> View for ResponseData<T> {
    type V = ResponseDataView;

    open spec fn view(&self) -> ResponseDataView {
        ResponseDataView {
            status: self.status,
            additional_status_size: self.additional_status_size,
            data: self.data@,
        }
    }
}

impl<T: CipData> ResponseData<T> {
    /// Appends the wire form of the response data.
    pub fn write(&self, out: &mut Vec<u8>)
        ensures
            final(out)@ == old(out)@ + self@.enc(),
    {
        out.push(0);
        out.push(self.status.byte());
        out.push(self.additional_status_size);
        self.data.write(out);
        proof {
            assert(out@ =~= old(out)@ + self@.enc());
        }
    }

    /// Reads response data from `buf` at `pos`; `budget` is the byte count
    /// the enclosing envelope says this structure occupies.
    pub fn read(buf: &[u8], pos: usize, budget: u16) -> (r: Result<
        (ResponseData<T>, usize),
        CodecError,
    >)
        requires
            pos <= buf@.len(),
        ensures
            resolves(r, pos as int, parse_response_data(buf@.skip(pos as int), budget as int)),
    {
        let len = buf.len();
        if len - pos < 3 || budget < 3 {
            return Err(CodecError::Truncated);
        }
        proof {
            let s = buf@.skip(pos as int);
            assert(s[1] == buf@[pos + 1]);
            assert(s[2] == buf@[pos + 2]);
            crate::codec::lemma_skip_skip(buf@, pos as int, 3);
        }
        let status_byte = buf[pos + 1];
        if status_byte != 0 {
            return Err(CodecError::UnknownResponseStatus(status_byte));
        }
        let additional_status_size = buf[pos + 2];
        let (data, p1) = match CipDataOpt::<T>::read(buf, pos + 3, budget - 3) {
            Ok(v) => v,
            Err(e) => {
                return Err(e);
            },
        };
        Ok((
            ResponseData { status: ResponseStatusCode::Success, additional_status_size, data },
            p1,
        ))
    }
}

/// Parsing the wire form of response data, against a budget of exactly its
/// own length, yields the same status and payload bytes.
pub proof fn lemma_response_data_roundtrip(m: ResponseDataView, rest: Seq<u8>)
    ensures
        parse_response_data(m.enc() + rest, m.enc().len() as int) == Ok::<_, CodecError>((
            m,
            m.enc().len() as int,
        )),
{
    let s = m.enc() + rest;
    assert(s[0] == 0u8 && s[1] == m.status.spec_byte() && s[2] == m.additional_status_size);
    assert(s.skip(3) =~= m.data + rest);
    crate::cip::message::data::lemma_payload_roundtrip(m.data, rest);
}

/// The message-router response envelope: a service container byte whose
/// response bit must be set, then the response data.
#[derive(Debug, PartialEq)]
pub struct MessageRouterResponse<T: CipData> {
    pub service_container: ServiceContainer,
    pub response_data: ResponseData<T>,
}

/// The mathematical model of `MessageRouterResponse`.
#[verifier::ext_equal]
pub ghost struct MessageRouterResponseView {
    pub service_container: ServiceContainer,
    pub response_data: ResponseDataView,
}

impl MessageRouterResponseView {
    /// The container is well-formed and marked as a response.
    pub open spec fn wf(self) -> bool {
        self.service_container.wf() && self.service_container.response
    }

    /// The wire form: the packed service container byte, then the response
    /// data.
    pub open spec fn enc(self) -> Seq<u8> {
        seq![self.service_container.spec_byte()] + self.response_data.enc()
    }
}

impl<T: CipData> View for MessageRouterResponse<T> {
    type V = MessageRouterResponseView;

    open spec fn view(&self) -> MessageRouterResponseView {
        MessageRouterResponseView {
            service_container: self.service_container,
            response_data: self.response_data@,
        }
    }
}

/// The spec-level parser for a message-router response within a byte
/// budget.  A container byte without the response bit fails the decode:
/// request bytes are never silently read as a response.
pub open spec fn parse_message_router_response(s: Seq<u8>, budget: int) -> Result<
    (MessageRouterResponseView, int),
    CodecError,
> {
    if s.len() < 1 || budget < 1 {
        Err(CodecError::Truncated)
    } else if s[0] < 128 {
        Err(CodecError::ResponseBitNotSet(s[0]))
    } else {
        match parse_response_data(s.skip(1), budget - 1) {
            Err(e) => Err(e),
            Ok((rd, n)) => Ok((
                MessageRouterResponseView {
                    service_container: ServiceContainer::spec_of_byte(s[0]),
                    response_data: rd,
                },
                1 + n,
            )),
        }
    }
}

/// Decoding a message-router response from bytes whose first byte does not
/// have the response bit set always fails, with the error naming that byte;
/// request bytes are never coerced into a response.
pub proof fn lemma_response_bit_required(s: Seq<u8>, budget: int)
    requires
        s.len() >= 1,
        budget >= 1,
        s[0] < 128,
    ensures
        parse_message_router_response(s, budget) == Err::<
            (MessageRouterResponseView, int),
            _,
        >(CodecError::ResponseBitNotSet(s[0])),
{
}

impl<T: CipData> MessageRouterResponse<T> {
    /// Appends the wire form of the response.
    pub fn write(&self, out: &mut Vec<u8>)
        requires
            self@.wf(),
        ensures
            final(out)@ == old(out)@ + self@.enc(),
    {
        out.push(self.service_container.byte());
        self.response_data.write(out);
        proof {
            assert(out@ =~= old(out)@ + self@.enc());
        }
    }

    /// Reads a response from `buf` at `pos`; `budget` is the byte count the
    /// enclosing frame says the whole envelope occupies.  Fails unless the
    /// container's response bit is set.
    pub fn read(buf: &[u8], pos: usize, budget: u16) -> (r: Result<
        (MessageRouterResponse<T>, usize),
        CodecError,
    >)
        requires
            pos <= buf@.len(),
        ensures
            resolves(
                r,
                pos as int,
                parse_message_router_response(buf@.skip(pos as int), budget as int),
            ),
            r matches Ok((v, _)) ==> v@.wf(),
    {
        let len = buf.len();
        if pos >= len || budget < 1 {
            return Err(CodecError::Truncated);
        }
        let container_byte = buf[pos];
        proof {
            assert(buf@.skip(pos as int)[0] == buf@[pos as int]);
            crate::codec::lemma_skip_skip(buf@, pos as int, 1);
        }
        if container_byte < 128 {
            return Err(CodecError::ResponseBitNotSet(container_byte));
        }
        let container = ServiceContainer::of_byte(container_byte);
        let (rd, p1) = match ResponseData::<T>::read(buf, pos + 1, budget - 1) {
            Ok(v) => v,
            Err(e) => {
                return Err(e);
            },
        };
        Ok((MessageRouterResponse { service_container: container, response_data: rd }, p1))
    }
}

/// Parsing the wire form of a well-formed message-router response, against
/// a budget of exactly its own length, yields the same response.
pub proof fn lemma_message_router_response_roundtrip(m: MessageRouterResponseView, rest: Seq<u8>)
    requires
        m.wf(),
    ensures
        parse_message_router_response(m.enc() + rest, m.enc().len() as int) == Ok::<
            _,
            CodecError,
        >((m, m.enc().len() as int)),
{
    let s = m.enc() + rest;
    assert(s[0] == m.service_container.spec_byte());
    assert(s[0] >= 128);
    assert(s.skip(1) =~= m.response_data.enc() + rest);
    lemma_response_data_roundtrip(m.response_data, rest);
    crate::cip::message::shared::lemma_service_container_roundtrip(m.service_container);
}

} // verus!
