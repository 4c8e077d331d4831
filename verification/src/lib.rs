//! Wire codec for an EtherNet/IP-style encapsulation protocol and the CIP
//! message-router protocol carried inside it.
//!
//! The crate encodes and decodes nested, length-prefixed, bit-packed binary
//! structures: logical addressing paths, service containers, message-router
//! envelopes, common-packet items, and the outer encapsulation frame.  Every
//! encoder is specified by a spec-level byte sequence and every decoder by a
//! spec-level parser; round-trip lemmas connect the two.

pub mod cip;
pub mod codec;
pub mod eip;
pub mod object_assembly;
