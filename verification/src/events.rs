//! The messages that flow into and out of a telnet session.

use crate::capabilities::ProtocolCapabilities;
use vstd::prelude::*;

verus! {

/// One unit of the telnet stream, in either direction.
#[derive(Debug, Clone)]
pub enum TelnetEvent {
    /// Application data: text typed by the user, or sent to the user.
    Data(Vec<u8>),
    /// A bare command such as NOP.
    Command(u8),
    /// WILL, WONT, DO or DONT, with the option it is about.
    Negotiate(u8, u8),
    /// A subnegotiation: the option and its payload.
    SubNegotiate(u8, Vec<u8>),
}

/// A telnet event with its payload as a sequence of bytes.
pub enum EventView {
    Data(Seq<u8>),
    Command(u8),
    Negotiate(u8, u8),
    SubNegotiate(u8, Seq<u8>),
}

impl View for TelnetEvent {
    type V = EventView;

    open spec fn view(&self) -> EventView {
        match self {
            TelnetEvent::Data(d) => EventView::Data(d@),
            TelnetEvent::Command(c) => EventView::Command(*c),
            TelnetEvent::Negotiate(c, o) => EventView::Negotiate(*c, *o),
            TelnetEvent::SubNegotiate(o, d) => EventView::SubNegotiate(*o, d@),
        }
    }
}

/// The events of a list, each as its view.
pub open spec fn events_view(events: Seq<TelnetEvent>) -> Seq<EventView> {
    events.map_values(|e: TelnetEvent| e@)
}

/// What the rest of the server asks of a telnet session.
pub enum Msg2TelnetProtocol {
    /// The game closes the session.
    GameClose,
    /// A GMCP message: its package name and its JSON body.
    GMCP(String, serde_json::Value),
    /// Text for the user.
    Text(String),
    /// The server's status variables, as name and value.
    MSSP(Vec<(String, String)>),
}

/// What a telnet session tells the database side.
pub enum Msg2Surreal {
    /// A command that the user typed.
    Command(String),
    /// What is now known of the client.
    Capabilities(ProtocolCapabilities),
}

} // verus!
