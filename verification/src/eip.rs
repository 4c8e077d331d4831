//! The encapsulation layer: common-packet item descriptors, command
//! payloads, and the outer encapsulation frame.

pub mod command;
pub mod description;
pub mod packet;
