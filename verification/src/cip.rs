//! The CIP layer: addressing paths, service containers, message-router
//! envelopes, payloads, and the identity object.

pub mod identity;
pub mod message;
pub mod path;
pub mod types;
