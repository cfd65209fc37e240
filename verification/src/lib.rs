//! The negotiation and session logic of a telnet portal for a MUD server,
//! verified with Verus.

pub mod capabilities;
pub mod codes;
pub mod config;
pub mod options;
pub mod outside;
pub mod text;
pub mod scan;
pub mod events;
pub mod protocol;
pub mod terminal;
pub mod session;
pub mod laws;
pub mod codec;
