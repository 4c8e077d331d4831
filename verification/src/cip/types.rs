//! Primitive CIP wire types: fixed-width integer aliases and the
//! length-prefixed short string.

use vstd::prelude::*;

use crate::codec::CodecError;

verus! {

/// One unsigned byte on the wire.
pub type CipByte = u8;

/// An unsigned 8-bit CIP integer.
pub type CipUsint = u8;

/// An unsigned 16-bit CIP integer, little-endian on the wire.
pub type CipUint = u16;

/// An unsigned 32-bit CIP integer, little-endian on the wire.
pub type CipUdint = u32;

/// A CIP short string: one length byte followed by that many bytes of text.
#[derive(Debug, PartialEq, Eq)]
pub struct CipShortString {
    value: Vec<u8>,
}

impl View for CipShortString {
    type V = Seq<u8>;

    closed spec fn view(&self) -> Seq<u8> {
        self.value@
    }
}

/// The wire form of a short string holding the bytes `b`: the length byte,
/// then the bytes.
pub open spec fn short_string_enc(b: Seq<u8>) -> Seq<u8> {
    seq![b.len() as u8] + b
}

/// The spec-level parser for a short string: the length byte, then that many
/// bytes.
pub open spec fn parse_short_string(s: Seq<u8>) -> Result<(Seq<u8>, int), CodecError> {
    if s.len() < 1 {
        Err(CodecError::Truncated)
    } else {
        let n = s[0] as int;
        if s.len() < 1 + n {
            Err(CodecError::Truncated)
        } else {
            Ok((s.subrange(1, 1 + n), 1 + n))
        }
    }
}

/// A parsed short string always fits its one-byte length prefix, and its
/// bytes re-encode to exactly the consumed input.
pub proof fn lemma_short_string_roundtrip(b: Seq<u8>, rest: Seq<u8>)
    requires
        b.len() <= 255,
    ensures
        parse_short_string(short_string_enc(b) + rest) == Ok::<_, CodecError>((
            b,
            short_string_enc(b).len() as int,
        )),
{
    let s = short_string_enc(b) + rest;
    assert(s[0] == b.len() as u8);
    assert(s.subrange(1, 1 + b.len() as u8 as int) =~= b);
}

impl CipShortString {
    /// The string fits the one-byte length prefix.
    pub open spec fn wf(self) -> bool {
        self@.len() <= 255
    }

    /// The wire form: the length byte, then the bytes.
    pub open spec fn enc(self) -> Seq<u8> {
        short_string_enc(self@)
    }

    /// Builds a short string from its bytes.
    pub fn new(value: Vec<u8>) -> (r: CipShortString)
        requires
            value@.len() <= 255,
        ensures
            r@ == value@,
            r.wf(),
    {
        CipShortString { value }
    }

    /// Builds a short string from the UTF-8 bytes of `s`.
    pub fn from(s: String) -> (r: CipShortString)
        requires
            vstd::utf8::encode_utf8(s@).len() <= 255,
        ensures
            r@ == vstd::utf8::encode_utf8(s@),
            r.wf(),
    {
        let bytes = s.as_str().as_bytes();
        let mut value: Vec<u8> = Vec::new();
        crate::codec::push_bytes(&mut value, bytes);
        CipShortString { value }
    }

    /// The bytes of the string as a fresh buffer.
    pub fn to_bytes(&self) -> (r: Vec<u8>)
        ensures
            r@ == self@,
    {
        let mut r: Vec<u8> = Vec::new();
        crate::codec::push_bytes(&mut r, self.value.as_slice());
        r
    }

    /// Appends the wire form: the length byte, then the bytes.  The length
    /// byte is the byte count truncated to eight bits; it is faithful
    /// exactly when the string is well-formed.
    pub fn write(&self, out: &mut Vec<u8>)
        ensures
            final(out)@ == old(out)@ + self.enc(),
    {
        out.push(#[verifier::truncate] (self.value.len() as u8));
        crate::codec::push_bytes(out, self.value.as_slice());
        proof {
            assert(out@ =~= old(out)@ + self.enc());
        }
    }

    /// Reads a short string from `buf` at `pos`.
    pub fn read(buf: &[u8], pos: usize) -> (r: Result<(CipShortString, usize), CodecError>)
        requires
            pos <= buf@.len(),
        ensures
            crate::codec::resolves(r, pos as int, parse_short_string(buf@.skip(pos as int))),
            r matches Ok((v, _)) ==> v.wf(),
    {
        let len = buf.len();
        if pos >= len {
            return Err(CodecError::Truncated);
        }
        let n = buf[pos] as usize;
        if len - (pos + 1) < n {
            return Err(CodecError::Truncated);
        }
        let value = crate::codec::read_bytes(buf, pos + 1, n);
        let r = CipShortString { value };
        proof {
            let s = buf@.skip(pos as int);
            assert(s[0] == buf@[pos as int]);
            assert(r@ =~= s.subrange(1, 1 + n));
        }
        Ok((r, pos + 1 + n))
    }
}

} // verus!
