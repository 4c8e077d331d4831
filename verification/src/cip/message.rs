//! The CIP message-router codec: service containers, request and response
//! envelopes, and the raw-or-typed payload union.

pub mod data;
pub mod request;
pub mod response;
pub mod shared;
