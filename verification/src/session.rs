//! The steps of a telnet session: what each input does to the session and
//! what it sends back.

use crate::codes::{GMCP, MSSP, MTTS, NAWS};
use crate::events::{EventView, Msg2TelnetProtocol, TelnetEvent};
use crate::outside::{json_string, json_text};
use crate::protocol::{negotiate_spec, sent, ProtocolView, TelnetProtocol};
use crate::terminal::{naws_spec, ttype_out_of_bounds, ttype_spec};
use crate::text::{
    has_prefix, starts_with, commands_of, crlf_spec, gmcp_payload, gmcp_text, mssp_payload, mssp_text, split_commands, split_lines,
    strings_view, text_payload,
};
use std::time::Instant;
use vstd::prelude::*;
use vstd::utf8::encode_utf8;

verus! {

broadcast use vstd::std_specs::hash::group_hash_axioms;

/// The connection to the client failed while reading.
pub struct ConnectionError;

/// Where a command typed by the user goes.
pub enum UserCommand {
    /// A command to the portal itself: it begins with `//`.
    Protocol(String),
    /// A command for the game.
    Game(String),
    /// A command typed before the session is linked to the game.
    Ignored,
}

/// The session `q` and the events `ev` after a subnegotiation about `op`
/// reaches session `p`: only supported options are heeded, NAWS reports the
/// window, TTYPE answers the terminal type; other payloads, GMCP among them,
/// change nothing.
pub open spec fn sub_spec(p: ProtocolView, op: u8, data: Seq<u8>, q: ProtocolView, ev: Seq<EventView>) -> bool {
    if !p.options.contains_key(op) {
        q == p && ev == Seq::<EventView>::empty()
    } else if op == NAWS {
        q == naws_spec(p, data) && ev == Seq::<EventView>::empty()
    } else if op == MTTS {
        ttype_spec(p, data, q, ev)
    } else {
        q == p && ev == Seq::<EventView>::empty()
    }
}

/// A subnegotiation that the portal does not handle: a terminal type answer
/// past the end of the exchange.
pub open spec fn sub_out_of_bounds(p: ProtocolView, op: u8, data: Seq<u8>) -> bool {
    p.options.contains_key(op) && op == MTTS && ttype_out_of_bounds(p, data)
}

/// An event from the client that the portal does not handle.
pub open spec fn event_out_of_bounds(p: ProtocolView, e: EventView) -> bool {
    match e {
        EventView::SubNegotiate(op, data) => sub_out_of_bounds(p, op, data),
        _ => false,
    }
}

/// Takes the complete lines out of the buffer: the session keeps what
/// follows the last line feed, and the lines become commands.
pub open spec fn read_lines_spec(p: ProtocolView) -> (ProtocolView, Seq<Seq<char>>) {
    (
        ProtocolView { app_buffer: split_lines(p.app_buffer).1, ..p },
        commands_of(split_lines(p.app_buffer).0),
    )
}

/// Typed bytes are buffered; once the session is linked to the game, the
/// complete lines are taken out as commands.
pub open spec fn data_spec(p: ProtocolView, data: Seq<u8>) -> (ProtocolView, Seq<Seq<char>>) {
    let q = ProtocolView { app_buffer: p.app_buffer + data, ..p };
    if p.sent_link {
        read_lines_spec(q)
    } else {
        (q, Seq::empty())
    }
}

/// The session `q`, the events `ev` and the commands `cmds` after a telnet
/// event `e` from the client reaches session `p`.
pub open spec fn telnet_event_spec(
    p: ProtocolView,
    e: EventView,
    q: ProtocolView,
    ev: Seq<EventView>,
    cmds: Seq<Seq<char>>,
) -> bool {
    match e {
        EventView::SubNegotiate(op, data) => sub_spec(p, op, data, q, ev) && cmds == Seq::<Seq<char>>::empty(),
        EventView::Negotiate(command, op) => {
            &&& q == negotiate_spec(p, command, op).0
            &&& ev == negotiate_spec(p, command, op).1
            &&& cmds == Seq::<Seq<char>>::empty()
        },
        EventView::Command(_) => q == p && ev == Seq::<EventView>::empty() && cmds == Seq::<Seq<char>>::empty(),
        EventView::Data(data) => {
            &&& q == data_spec(p, data).0
            &&& cmds == data_spec(p, data).1
            &&& ev == Seq::<EventView>::empty()
        },
    }
}

/// The session is closed.
pub open spec fn closed(p: ProtocolView) -> ProtocolView {
    ProtocolView { running: false, ..p }
}

/// No handshake is outstanding.
pub open spec fn negotiation_done(p: ProtocolView) -> bool {
    p.hs_local.is_empty() && p.hs_remote.is_empty() && p.hs_ttype.is_empty()
}

/// The session after the end of an iteration of the session loop, and the
/// commands taken out: negotiation ends when no handshake is outstanding or
/// its time is up, and when it has ended the session is linked to the game,
/// once, and the lines typed meanwhile become commands.
pub open spec fn check_negotiation_spec(p: ProtocolView, in_negotiation: bool) -> (bool, ProtocolView, Seq<Seq<char>>) {
    let still = in_negotiation && !negotiation_done(p);
    if !still && !p.sent_link {
        let (q, cmds) = read_lines_spec(ProtocolView { sent_link: true, active: true, ..p });
        (still, q, cmds)
    } else {
        (still, p, Seq::empty())
    }
}

impl TelnetProtocol {
    /// Handles a subnegotiation from the client.
    pub fn receive_sub(&mut self, op: u8, data: &Vec<u8>) -> (out: Vec<TelnetEvent>)
        requires
            !sub_out_of_bounds(old(self)@, op, data@),
        ensures
            sub_spec(old(self)@, op, data@, final(self)@, sent(out@)),
            final(self).same_clock(&*old(self)),
    {
        let out: Vec<TelnetEvent> = Vec::new();
        assert(sent(out@) =~= Seq::<EventView>::empty());
        if !self.op_state.contains_key(&op) {
            // Only the options that the portal supports are heeded.
            return out;
        }
        if op == NAWS {
            self.receive_naws(data);
            out
        } else if op == MTTS {
            self.receive_ttype(data)
        } else {
            // GMCP and the others carry nothing that the session keeps.
            out
        }
    }

    /// Takes the complete lines out of the buffer, as commands.
    pub fn process_app_buffer(&mut self) -> (commands: Vec<String>)
        ensures
            final(self)@ == read_lines_spec(old(self)@).0,
            strings_view(commands@) == read_lines_spec(old(self)@).1,
            final(self).same_clock(&*old(self)),
    {
        let ghost p = self@;
        let (commands, rest) = split_commands(&self.app_buffer);
        self.app_buffer = rest;
        assert(self@ =~= read_lines_spec(p).0);
        commands
    }

    /// Handles one telnet event from the client.
    pub fn process_telnet_event(&mut self, event: TelnetEvent) -> (res: (Vec<TelnetEvent>, Vec<String>))
        requires
            !event_out_of_bounds(old(self)@, event@),
        ensures
            telnet_event_spec(old(self)@, event@, final(self)@, sent(res.0@), strings_view(res.1@)),
            final(self).same_clock(&*old(self)),
    {
        let ghost p = self@;
        let none: Vec<String> = Vec::new();
        assert(strings_view(none@) =~= Seq::<Seq<char>>::empty());
        match event {
            TelnetEvent::SubNegotiate(op, data) => (self.receive_sub(op, &data), none),
            TelnetEvent::Negotiate(command, op) => (self.receive_negotiate(command, op), none),
            TelnetEvent::Command(_) => {
                // NOP and the other bare commands ask nothing of the portal.
                let out: Vec<TelnetEvent> = Vec::new();
                assert(sent(out@) =~= Seq::<EventView>::empty());
                (out, none)
            },
            TelnetEvent::Data(data) => {
                let out: Vec<TelnetEvent> = Vec::new();
                assert(sent(out@) =~= Seq::<EventView>::empty());
                let mut data = data;
                self.app_buffer.append(&mut data);
                assert(self@ =~= ProtocolView { app_buffer: p.app_buffer + event@->Data_0, ..p });
                if self.sent_link {
                    let commands = self.process_app_buffer();
                    (out, commands)
                } else {
                    (out, none)
                }
            },
        }
    }

    /// Handles what the connection delivered: an event, a read error, or
    /// the end of the stream. An error or the end closes the session.
    pub fn handle_conn(&mut self, now: Instant, t_msg: Option<Result<TelnetEvent, ConnectionError>>) -> (res: (
        Vec<TelnetEvent>,
        Vec<String>,
    ))
        requires
            t_msg matches Some(Ok(e)) ==> !event_out_of_bounds(old(self)@, e@),
        ensures
            match t_msg {
                Some(Ok(e)) => {
                    &&& telnet_event_spec(old(self)@, e@, final(self)@, sent(res.0@), strings_view(res.1@))
                    &&& final(self).time_activity == now
                },
                Some(Err(_)) => {
                    &&& final(self)@ == closed(old(self)@)
                    &&& res.0@.len() == 0 && res.1@.len() == 0
                    &&& final(self).time_activity == now
                },
                None => {
                    &&& final(self)@ == closed(old(self)@)
                    &&& res.0@.len() == 0 && res.1@.len() == 0
                    &&& final(self).time_activity == old(self).time_activity
                },
            },
            final(self).conf == old(self).conf,
            final(self).time_created == old(self).time_created,
            final(self).timers == old(self).timers,
    {
        let ghost p = self@;
        match t_msg {
            Some(msg) => {
                self.time_activity = now;
                match msg {
                    Ok(event) => self.process_telnet_event(event),
                    Err(_) => {
                        self.running = false;
                        assert(self@ =~= closed(p));
                        (Vec::new(), Vec::new())
                    },
                }
            },
            None => {
                self.running = false;
                assert(self@ =~= closed(p));
                (Vec::new(), Vec::new())
            },
        }
    }

    /// Handles a message from the rest of the server: the game closes the
    /// session, or sends GMCP, text or status variables to the client.
    pub fn process_protocol_message(&mut self, msg: Msg2TelnetProtocol) -> (out: Vec<TelnetEvent>)
        ensures
            match msg {
                Msg2TelnetProtocol::GameClose => final(self)@ == closed(old(self)@) && out@.len() == 0,
                Msg2TelnetProtocol::GMCP(package, body) => {
                    &&& final(self)@ == old(self)@
                    &&& out@.len() == 1
                    &&& sent(out@) == seq![EventView::SubNegotiate(GMCP, encode_utf8(gmcp_text(package@, json_string(body))))]
                },
                Msg2TelnetProtocol::Text(text) => {
                    &&& final(self)@ == old(self)@
                    &&& sent(out@) == seq![EventView::Data(encode_utf8(crlf_spec(text@)))]
                },
                Msg2TelnetProtocol::MSSP(entries) => {
                    &&& final(self)@ == old(self)@
                    &&& sent(out@) == seq![EventView::SubNegotiate(MSSP, encode_utf8(mssp_text(entries@)))]
                },
            },
            final(self).same_clock(&*old(self)),
    {
        let ghost p = self@;
        let mut out: Vec<TelnetEvent> = Vec::new();
        match msg {
            Msg2TelnetProtocol::GameClose => {
                self.running = false;
                assert(self@ =~= closed(p));
            },
            Msg2TelnetProtocol::GMCP(package, body) => {
                let text = json_text(&body);
                let payload = gmcp_payload(package.as_str(), text.as_str());
                let event = TelnetEvent::SubNegotiate(GMCP, payload);
                let ghost e = event@;
                out.push(event);
                assert(sent(out@) =~= seq![e]);
            },
            Msg2TelnetProtocol::Text(text) => {
                let event = TelnetEvent::Data(text_payload(text.as_str()));
                let ghost e = event@;
                out.push(event);
                assert(sent(out@) =~= seq![e]);
            },
            Msg2TelnetProtocol::MSSP(entries) => {
                let event = TelnetEvent::SubNegotiate(MSSP, mssp_payload(&entries));
                let ghost e = event@;
                out.push(event);
                assert(sent(out@) =~= seq![e]);
            },
        }
        out
    }

    /// Ends an iteration of the session loop: ends the negotiation when no
    /// handshake is outstanding, and links the session to the game once the
    /// negotiation has ended. Gives whether the negotiation goes on, and the
    /// commands typed meanwhile.
    pub fn check_negotiation(&mut self, in_negotiation_phase: bool) -> (res: (bool, Vec<String>))
        ensures
            res.0 == check_negotiation_spec(old(self)@, in_negotiation_phase).0,
            final(self)@ == check_negotiation_spec(old(self)@, in_negotiation_phase).1,
            strings_view(res.1@) == check_negotiation_spec(old(self)@, in_negotiation_phase).2,
            final(self).same_clock(&*old(self)),
    {
        let ghost p = self@;
        let mut in_negotiation_phase = in_negotiation_phase;
        if in_negotiation_phase && self.handshakes_left.is_empty() {
            in_negotiation_phase = false;
        }
        if !in_negotiation_phase && !self.sent_link {
            self.sent_link = true;
            self.active = true;
            let commands = self.process_app_buffer();
            (in_negotiation_phase, commands)
        } else {
            let none: Vec<String> = Vec::new();
            assert(strings_view(none@) =~= Seq::<Seq<char>>::empty());
            (in_negotiation_phase, none)
        }
    }

    /// Records the reading of the periodic timer.
    pub fn handle_interval_timer(&mut self, ins: Instant)
        ensures
            final(self)@ == old(self)@,
            final(self).timers.last_interval == ins,
            final(self).timers.last_keepalive == old(self).timers.last_keepalive,
            final(self).conf == old(self).conf,
            final(self).time_created == old(self).time_created,
            final(self).time_activity == old(self).time_activity,
    {
        self.timers.last_interval = ins;
    }

    /// Closes the session after a send to the client failed.
    pub fn send_failed(&mut self)
        ensures
            final(self)@ == closed(old(self)@),
            final(self).same_clock(&*old(self)),
    {
        let ghost p = self@;
        self.running = false;
        assert(self@ =~= closed(p));
    }

    /// Sends a typed command where it goes: a command that begins with `//`
    /// to the portal, any other to the game once the session is linked.
    pub fn handle_user_command(&self, cmd: String) -> (res: UserCommand)
        ensures
            has_prefix(cmd@, "//"@) ==> (res matches UserCommand::Protocol(c) && c@ == cmd@),
            !has_prefix(cmd@, "//"@) && self.sent_link ==> (res matches UserCommand::Game(c) && c@ == cmd@),
            !has_prefix(cmd@, "//"@) && !self.sent_link ==> res is Ignored,
    {
        if starts_with(cmd.as_str(), "//") {
            UserCommand::Protocol(cmd)
        } else if self.sent_link {
            UserCommand::Game(cmd)
        } else {
            UserCommand::Ignored
        }
    }
}

} // verus!
