//! The raw-or-typed payload union.  On the wire a payload is just bytes; in
//! memory it is either an uninterpreted byte buffer or a typed value that
//! can serialize itself.  Equality between the two representations is
//! byte-for-byte equality of their serialized forms.

use vstd::prelude::*;

use crate::codec::{bytes_eq, push_bytes, read_bytes, resolves, CodecError};

verus! {

/// The capability interface of a typed payload: a value that states its own
/// wire form (`enc`) and can produce it (`write_to`).  The generic envelope
/// types carry any implementor without knowing the concrete type.
pub trait CipData {
    /// The bytes the value serializes to.
    spec fn enc(&self) -> Seq<u8>;

    /// Appends the value's wire form.
    fn write_to(&self, out: &mut Vec<u8>)
        ensures
            final(out)@ == old(out)@ + self.enc(),
    ;
}

/// A single byte is the simplest payload; it stands in for "no particular
/// typed payload" in envelopes built without one.
impl CipData for u8 {
    open spec fn enc(&self) -> Seq<u8> {
        seq![*self]
    }

    fn write_to(&self, out: &mut Vec<u8>) {
        out.push(*self);
    }
}

/// A message payload: either an uninterpreted byte buffer, or a typed value
/// serialized through its `CipData` capability.  Decoding always produces
/// `Raw`, because the generic codec cannot know the concrete type; a caller
/// that does reinterprets the bytes itself.
#[derive(Debug)]
pub enum CipDataOpt<T: CipData> {
    Raw(Vec<u8>),
    Typed(T),
}

impl<T: CipData> View for CipDataOpt<T> {
    type V = Seq<u8>;

    /// The payload's mathematical model is the bytes it serializes to.
    open spec fn view(&self) -> Seq<u8> {
        match self {
            CipDataOpt::Raw(data) => data@,
            CipDataOpt::Typed(value) => value.enc(),
        }
    }
}

/// The spec-level parser for a payload of `length` bytes: the bytes
/// themselves, uninterpreted.
pub open spec fn parse_payload(s: Seq<u8>, length: int) -> Result<(Seq<u8>, int), CodecError> {
    if s.len() < length {
        Err(CodecError::Truncated)
    } else {
        Ok((s.take(length), length))
    }
}

/// A payload's bytes re-encode to exactly the consumed input.
pub proof fn lemma_payload_roundtrip(b: Seq<u8>, rest: Seq<u8>)
    ensures
        parse_payload(b + rest, b.len() as int) == Ok::<_, CodecError>((b, b.len() as int)),
{
    assert((b + rest).take(b.len() as int) =~= b);
}

impl<T: CipData> CipDataOpt<T> {
    /// Appends the payload's bytes: a raw buffer verbatim, a typed value
    /// through its own encoder.
    pub fn write(&self, out: &mut Vec<u8>)
        ensures
            final(out)@ == old(out)@ + self@,
    {
        match self {
            CipDataOpt::Raw(data) => push_bytes(out, data.as_slice()),
            CipDataOpt::Typed(value) => value.write_to(out),
        }
    }

    /// Reads a payload of exactly `length` bytes, always as `Raw`.
    pub fn read(buf: &[u8], pos: usize, length: u16) -> (r: Result<
        (CipDataOpt<T>, usize),
        CodecError,
    >)
        requires
            pos <= buf@.len(),
        ensures
            resolves(r, pos as int, parse_payload(buf@.skip(pos as int), length as int)),
    {
        let len = buf.len();
        if len - pos < length as usize {
            return Err(CodecError::Truncated);
        }
        let data = read_bytes(buf, pos, length as usize);
        proof {
            assert(data@ =~= buf@.skip(pos as int).take(length as int));
        }
        Ok((CipDataOpt::Raw(data), pos + length as usize))
    }
}

impl<T: CipData> PartialEq for CipDataOpt<T> {
    /// Two payloads are equal when they serialize to the same bytes; a
    /// typed value is serialized to compare it against a raw buffer.
    fn eq(&self, other: &Self) -> (r: bool) {
        match self {
            CipDataOpt::Raw(a) => match other {
                CipDataOpt::Raw(b) => bytes_eq(a, b),
                CipDataOpt::Typed(u) => {
                    let mut encoded: Vec<u8> = Vec::new();
                    u.write_to(&mut encoded);
                    bytes_eq(a, &encoded)
                },
            },
            CipDataOpt::Typed(t) => {
                let mut encoded: Vec<u8> = Vec::new();
                t.write_to(&mut encoded);
                match other {
                    CipDataOpt::Raw(b) => bytes_eq(&encoded, b),
                    CipDataOpt::Typed(u) => {
                        let mut encoded_other: Vec<u8> = Vec::new();
                        u.write_to(&mut encoded_other);
                        bytes_eq(&encoded, &encoded_other)
                    },
                }
            },
        }
    }
}

impl<T: CipData> vstd::std_specs::cmp::PartialEqSpecImpl for CipDataOpt<T> {
    open spec fn obeys_eq_spec() -> bool {
        true
    }

    /// What `==` means on payloads: equality of the serialized bytes.
    open spec fn eq_spec(&self, other: &Self) -> bool {
        self@ == other@
    }
}

} // verus!
