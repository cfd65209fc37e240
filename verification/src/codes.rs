//! The telnet command and option bytes that the portal speaks.

use vstd::prelude::*;

verus! {

/// Interpret As Command: starts every command sequence.
pub const IAC: u8 = 255;
/// Refuses, or asks the peer to stop, an option on the peer's side.
pub const DONT: u8 = 254;
/// Asks for, or accepts, an option on the peer's side.
pub const DO: u8 = 253;
/// Refuses, or announces the end of, an option on the sender's side.
pub const WONT: u8 = 252;
/// Offers, or accepts, an option on the sender's side.
pub const WILL: u8 = 251;
/// Begins a subnegotiation.
pub const SB: u8 = 250;
/// Ends a subnegotiation.
pub const SE: u8 = 240;
/// No operation.
pub const NOP: u8 = 241;

/// Suppress Go Ahead.
pub const SGA: u8 = 3;
/// Terminal type, with the MUD Terminal Type Standard on top of it.
pub const MTTS: u8 = 24;
/// End Of Record.
pub const TELOPT_EOR: u8 = 25;
/// Negotiate About Window Size.
pub const NAWS: u8 = 31;
/// Linemode.
pub const LINEMODE: u8 = 34;
/// MUD Server Data Protocol.
pub const MSDP: u8 = 69;
/// MUD Server Status Protocol.
pub const MSSP: u8 = 70;
/// MUD Client Compression Protocol, version 2.
pub const MCCP2: u8 = 86;
/// MUD Client Compression Protocol, version 3.
pub const MCCP3: u8 = 87;
/// Generic MUD Communication Protocol.
pub const GMCP: u8 = 201;

} // verus!
