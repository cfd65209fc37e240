//! One telnet session, as a state machine: each event from the client, the
//! game or the clock moves the session to its next state and yields the
//! telnet events to send back.

use crate::capabilities::{is_unknown_client, ProtocolCapabilities, DEFAULT_HEIGHT, DEFAULT_WIDTH};
use crate::codes::{DO, DONT, LINEMODE, MCCP2, MCCP3, MTTS, NAWS, SGA, WILL, WONT};
use crate::config::TotalConf;
use crate::events::{EventView, TelnetEvent};
use crate::options::{
    option_table, telnet_options, TelnetHandshakes, TelnetOption, TelnetOptionPerspective,
    TelnetOptionState, START_LOCAL, START_REMOTE,
};
use crate::outside::instant_now;
use std::collections::HashMap;
use std::collections::HashSet;
use std::sync::Arc;
use std::time::Instant;
use vstd::prelude::*;

verus! {

broadcast use vstd::std_specs::hash::group_hash_axioms;

/// The clock readings of a session's periodic work.
#[derive(Debug)]
pub struct TelnetTimers {
    pub last_interval: Instant,
    pub last_keepalive: Instant,
}

impl Default for TelnetTimers {
    /// Both readings are taken now.
    fn default() -> Self {
        TelnetTimers { last_interval: instant_now(), last_keepalive: instant_now() }
    }
}

/// The state of one telnet session.
pub struct TelnetProtocol {
    pub conf: Arc<TotalConf>,
    /// The negotiation state of each supported option.
    pub op_state: HashMap<u8, TelnetOptionState>,
    /// What is known of the client.
    pub config: ProtocolCapabilities,
    /// The handshakes still outstanding.
    pub handshakes_left: TelnetHandshakes,
    /// How many terminal types the client has reported.
    pub ttype_count: u8,
    /// The terminal type that the client reported last, while more may come.
    pub ttype_last: Option<String>,
    /// The session has finished negotiating and serves the user.
    pub active: bool,
    /// The session has been linked to the game.
    pub sent_link: bool,
    /// The session goes on; once false, the connection is closed.
    pub running: bool,
    /// Bytes typed by the user that do not yet make up a whole line.
    pub app_buffer: Vec<u8>,
    pub time_created: Instant,
    pub time_activity: Instant,
    pub timers: TelnetTimers,
}

/// A session as mathematical values.
#[verifier::ext_equal]
pub struct ProtocolView {
    pub options: Map<u8, TelnetOptionState>,
    pub config: ProtocolCapabilities,
    pub hs_local: Set<u8>,
    pub hs_remote: Set<u8>,
    pub hs_ttype: Set<u8>,
    pub ttype_count: u8,
    pub ttype_last: Option<String>,
    pub active: bool,
    pub sent_link: bool,
    pub running: bool,
    pub app_buffer: Seq<u8>,
}

impl View for TelnetProtocol {
    type V = ProtocolView;

    open spec fn view(&self) -> ProtocolView {
        ProtocolView {
            options: self.op_state@,
            config: self.config,
            hs_local: self.handshakes_left.local@,
            hs_remote: self.handshakes_left.remote@,
            hs_ttype: self.handshakes_left.ttype@,
            ttype_count: self.ttype_count,
            ttype_last: self.ttype_last,
            active: self.active,
            sent_link: self.sent_link,
            running: self.running,
            app_buffer: self.app_buffer@,
        }
    }
}

impl TelnetProtocol {
    /// The configuration and the clock readings are the same in both.
    pub open spec fn same_clock(&self, other: &TelnetProtocol) -> bool {
        &&& self.conf == other.conf
        &&& self.time_created == other.time_created
        &&& self.time_activity == other.time_activity
        &&& self.timers == other.timers
    }
}

/// The events of a list, each as its view.
pub open spec fn sent(events: Seq<TelnetEvent>) -> Seq<EventView> {
    Seq::new(events.len(), |i: int| events[i]@)
}

/// Appends one event to the outgoing list.
fn emit(out: &mut Vec<TelnetEvent>, event: TelnetEvent)
    ensures
        sent(final(out)@) == sent(old(out)@).push(event@),
{
    let ghost e = event@;
    out.push(event);
    assert(sent(out@) =~= sent(old(out)@).push(e));
}

/// The invariant of a session: the handshakes outstanding on either side
/// are exactly the options whose answer the portal awaits there, an option
/// awaited is not yet in effect, the terminal type exchange has not gone
/// past its third answer, and a session linked to the game is active.
pub open spec fn wf(p: ProtocolView) -> bool {
    &&& p.ttype_count <= 2
    &&& p.sent_link ==> p.active
    &&& !p.hs_local.contains(0)
    &&& !p.hs_remote.contains(0)
    &&& forall|op: u8| #[trigger] p.hs_local.contains(op) ==> p.options.contains_key(op) && p.options[op].local.negotiating
    &&& forall|op: u8| #[trigger] p.hs_remote.contains(op) ==> p.options.contains_key(op) && p.options[op].remote.negotiating
    &&& forall|op: u8| op > 0 && #[trigger] p.options.contains_key(op) && p.options[op].local.negotiating ==> p.hs_local.contains(op)
    &&& forall|op: u8| op > 0 && #[trigger] p.options.contains_key(op) && p.options[op].remote.negotiating ==> p.hs_remote.contains(op)
    &&& forall|op: u8| #[trigger] p.options.contains_key(op) ==> !(p.options[op].local.negotiating && p.options[op].local.enabled)
    &&& forall|op: u8| #[trigger] p.options.contains_key(op) ==> !(p.options[op].remote.negotiating && p.options[op].remote.enabled)
}

/// A session as it is opened: nothing negotiated, nothing buffered, running.
pub open spec fn fresh(p: ProtocolView) -> bool {
    &&& p.options == Map::<u8, TelnetOptionState>::empty()
    &&& p.hs_local == Set::<u8>::empty()
    &&& p.hs_remote == Set::<u8>::empty()
    &&& p.hs_ttype == Set::<u8>::empty()
    &&& p.ttype_count == 0
    &&& p.ttype_last is None
    &&& !p.active
    &&& !p.sent_link
    &&& p.running
    &&& p.app_buffer == Seq::<u8>::empty()
}

impl TelnetProtocol {
    /// Opens a session for a client at the given address and port, known by
    /// the given host names, over TLS or not.
    pub fn new(
        conf: Arc<TotalConf>,
        host_address: String,
        host_port: u16,
        hostnames: Vec<String>,
        tls: bool,
    ) -> (out: Self)
        ensures
            fresh(out@),
            wf(out@),
            out.conf == conf,
            is_unknown_client(out.config),
            out.config.tls == tls,
            out.config.host_address@ == host_address@,
            out.config.host_port == host_port,
            out.config.host_names@ == hostnames@,
    {
        let mut config = ProtocolCapabilities::default();
        config.tls = tls;
        config.host_address = host_address;
        config.host_port = host_port;
        config.host_names = hostnames;
        let out = TelnetProtocol {
            conf,
            op_state: HashMap::new(),
            config,
            handshakes_left: TelnetHandshakes {
                local: HashSet::new(),
                remote: HashSet::new(),
                ttype: HashSet::new(),
            },
            ttype_count: 0,
            ttype_last: None,
            active: false,
            sent_link: false,
            running: true,
            app_buffer: Vec::new(),
            time_created: instant_now(),
            time_activity: instant_now(),
            timers: TelnetTimers::default(),
        };
        out
    }
}

/// The state in which the portal opens an option: nothing in effect, and an
/// answer awaited on each side that the portal starts.
pub open spec fn opening_state(opt: TelnetOption) -> TelnetOptionState {
    TelnetOptionState {
        remote: TelnetOptionPerspective { enabled: false, negotiating: opt.has(START_REMOTE) },
        local: TelnetOptionPerspective { enabled: false, negotiating: opt.has(START_LOCAL) },
    }
}

/// The requests with which the portal opens an option: WILL for its own
/// side, then DO for the client's, where the option starts there.
pub open spec fn opening_requests(code: u8, opt: TelnetOption) -> Seq<EventView> {
    (if opt.has(START_LOCAL) {
        seq![EventView::Negotiate(WILL, code)]
    } else {
        Seq::empty()
    }) + (if opt.has(START_REMOTE) {
        seq![EventView::Negotiate(DO, code)]
    } else {
        Seq::empty()
    })
}

/// The session and the requests after opening the first `n` options of the
/// table.
pub open spec fn start_prefix(p: ProtocolView, n: int) -> (ProtocolView, Seq<EventView>)
    decreases n,
{
    if n <= 0 || n > option_table().len() {
        (p, Seq::empty())
    } else {
        let (q, ev) = start_prefix(p, n - 1);
        let (code, opt) = option_table()[n - 1];
        (
            ProtocolView {
                options: q.options.insert(code, opening_state(opt)),
                hs_local: if opt.has(START_LOCAL) {
                    q.hs_local.insert(code)
                } else {
                    q.hs_local
                },
                hs_remote: if opt.has(START_REMOTE) {
                    q.hs_remote.insert(code)
                } else {
                    q.hs_remote
                },
                ..q
            },
            ev + opening_requests(code, opt),
        )
    }
}

/// Opening every supported option, in the order of the table.
pub open spec fn start_spec(p: ProtocolView) -> (ProtocolView, Seq<EventView>) {
    start_prefix(p, option_table().len() as int)
}

impl TelnetProtocol {
    /// Opens the negotiation of every supported option: the portal offers
    /// the options of its own side and asks for those of the client's.
    pub fn start(&mut self) -> (out: Vec<TelnetEvent>)
        ensures
            final(self)@ == start_spec(old(self)@).0,
            sent(out@) == start_spec(old(self)@).1,
            final(self).same_clock(&*old(self)),
    {
        let table = telnet_options();
        let mut out: Vec<TelnetEvent> = Vec::new();
        let n = table.len();
        let mut i: usize = 0;
        while i < n
            invariant
                n == table@.len() == option_table().len(),
                table@ == option_table(),
                i <= n,
                self@ == start_prefix(old(self)@, i as int).0,
                sent(out@) == start_prefix(old(self)@, i as int).1,
                self.same_clock(&*old(self)),
            decreases n - i,
        {
            let (code, tel_op) = table[i];
            let ghost before = self@;
            let ghost before_out = sent(out@);
            let mut state = TelnetOptionState::default();
            if tel_op.contains(START_LOCAL) {
                state.local.negotiating = true;
                emit(&mut out, TelnetEvent::Negotiate(WILL, code));
                self.handshakes_left.local.insert(code);
            }
            if tel_op.contains(START_REMOTE) {
                state.remote.negotiating = true;
                emit(&mut out, TelnetEvent::Negotiate(DO, code));
                self.handshakes_left.remote.insert(code);
            }
            self.op_state.insert(code, state);
            i = i + 1;
            proof {
                let (q, ev) = start_prefix(old(self)@, i - 1);
                assert(state == opening_state(tel_op));
                assert(self@ =~= start_prefix(old(self)@, i as int).0);
                assert(sent(out@) =~= start_prefix(old(self)@, i as int).1);
            }
        }
        out
    }
}

/// The session with other capabilities.
pub open spec fn with_config(p: ProtocolView, c: ProtocolCapabilities) -> ProtocolView {
    ProtocolView { config: c, ..p }
}

/// The request for the client's next terminal type: SEND (1) under the
/// terminal type option.
pub open spec fn ttype_request() -> EventView {
    EventView::SubNegotiate(MTTS, seq![1u8])
}

/// What follows when the client's side of an option comes into effect:
/// NAWS and LINEMODE are recorded, and MTTS starts the terminal type
/// exchange with a first request.
pub open spec fn enable_remote_spec(p: ProtocolView, op: u8) -> (ProtocolView, Seq<EventView>) {
    if op == NAWS {
        (with_config(p, ProtocolCapabilities { naws: true, ..p.config }), Seq::empty())
    } else if op == MTTS {
        (ProtocolView { hs_ttype: p.hs_ttype.insert(0), ..p }, seq![ttype_request()])
    } else if op == LINEMODE {
        (with_config(p, ProtocolCapabilities { linemode: true, ..p.config }), Seq::empty())
    } else {
        (p, Seq::empty())
    }
}

/// What follows when the client's side of an option goes out of effect:
/// without NAWS the window is back to 78 by 24; without MTTS the terminal
/// type exchange is over.
pub open spec fn disable_remote_spec(p: ProtocolView, op: u8) -> ProtocolView {
    if op == NAWS {
        with_config(p, ProtocolCapabilities { naws: false, width: DEFAULT_WIDTH, height: DEFAULT_HEIGHT, ..p.config })
    } else if op == MTTS {
        ProtocolView { config: ProtocolCapabilities { ttype: false, ..p.config }, hs_ttype: Set::empty(), ..p }
    } else if op == LINEMODE {
        with_config(p, ProtocolCapabilities { linemode: false, ..p.config })
    } else {
        p
    }
}

/// The start of compression: an empty subnegotiation under MCCP2.
pub open spec fn mccp2_start() -> EventView {
    EventView::SubNegotiate(MCCP2, Seq::empty())
}

/// What follows when the portal's side of an option comes into effect.
pub open spec fn enable_local_spec(p: ProtocolView, op: u8) -> (ProtocolView, Seq<EventView>) {
    if op == SGA {
        (with_config(p, ProtocolCapabilities { sga: true, ..p.config }), Seq::empty())
    } else if op == MCCP2 {
        (with_config(p, ProtocolCapabilities { mccp2: true, ..p.config }), seq![mccp2_start()])
    } else if op == MCCP3 {
        (with_config(p, ProtocolCapabilities { mccp3: true, ..p.config }), Seq::empty())
    } else {
        (p, Seq::empty())
    }
}

/// What follows when the portal's side of an option goes out of effect.
pub open spec fn disable_local_spec(p: ProtocolView, op: u8) -> ProtocolView {
    if op == SGA {
        with_config(p, ProtocolCapabilities { sga: false, ..p.config })
    } else {
        p
    }
}

/// The handshakes without `op`; the option byte 0 is never taken out.
pub open spec fn settle(hs: Set<u8>, op: u8) -> Set<u8> {
    if op > 0 {
        hs.remove(op)
    } else {
        hs
    }
}

/// The answer to a WILL, WONT, DO or DONT from the client about `op`.
///
/// An option that the portal does not support is refused: WILL gets DONT,
/// DO gets WONT, and nothing else changes. For a supported option:
/// - WILL puts the client's side in effect, unless it already is; it is
///   answered with DO unless it answers the portal's own DO.
/// - WONT takes the client's side out of effect; no answer is sent.
/// - DO and DONT do the same for the portal's side, answering WILL.
/// An answer to a request of the portal settles that handshake.
pub open spec fn negotiate_spec(p: ProtocolView, command: u8, op: u8) -> (ProtocolView, Seq<EventView>) {
    if !p.options.contains_key(op) {
        (
            p,
            if command == WILL {
                seq![EventView::Negotiate(DONT, op)]
            } else if command == DO {
                seq![EventView::Negotiate(WONT, op)]
            } else {
                Seq::empty()
            },
        )
    } else {
        let st = p.options[op];
        if command == WILL {
            if st.remote.enabled {
                (p, Seq::empty())
            } else {
                let q = ProtocolView {
                    options: p.options.insert(
                        op,
                        TelnetOptionState { remote: TelnetOptionPerspective { enabled: true, negotiating: false }, ..st },
                    ),
                    hs_remote: settle(p.hs_remote, op),
                    ..p
                };
                let reply = if st.remote.negotiating {
                    Seq::empty()
                } else {
                    seq![EventView::Negotiate(DO, op)]
                };
                (enable_remote_spec(q, op).0, reply + enable_remote_spec(q, op).1)
            }
        } else if command == WONT {
            let q = ProtocolView {
                options: p.options.insert(
                    op,
                    TelnetOptionState { remote: TelnetOptionPerspective { enabled: false, negotiating: false }, ..st },
                ),
                hs_remote: if st.remote.negotiating {
                    settle(p.hs_remote, op)
                } else {
                    p.hs_remote
                },
                ..p
            };
            (if st.remote.enabled {
                disable_remote_spec(q, op)
            } else {
                q
            }, Seq::empty())
        } else if command == DO {
            if st.local.enabled {
                (p, Seq::empty())
            } else {
                let q = ProtocolView {
                    options: p.options.insert(
                        op,
                        TelnetOptionState { local: TelnetOptionPerspective { enabled: true, negotiating: false }, ..st },
                    ),
                    hs_local: settle(p.hs_local, op),
                    ..p
                };
                let reply = if st.local.negotiating {
                    Seq::empty()
                } else {
                    seq![EventView::Negotiate(WILL, op)]
                };
                (enable_local_spec(q, op).0, reply + enable_local_spec(q, op).1)
            }
        } else if command == DONT {
            let q = ProtocolView {
                options: p.options.insert(
                    op,
                    TelnetOptionState { local: TelnetOptionPerspective { enabled: false, negotiating: false }, ..st },
                ),
                hs_local: if st.local.negotiating {
                    settle(p.hs_local, op)
                } else {
                    p.hs_local
                },
                ..p
            };
            (if st.local.enabled {
                disable_local_spec(q, op)
            } else {
                q
            }, Seq::empty())
        } else {
            (p, Seq::empty())
        }
    }
}

impl TelnetProtocol {
    /// Asks the client for its next terminal type.
    pub fn request_ttype(&self, out: &mut Vec<TelnetEvent>)
        ensures
            sent(final(out)@) == sent(old(out)@).push(ttype_request()),
    {
        let mut data: Vec<u8> = Vec::new();
        data.push(1u8);
        assert(data@ =~= seq![1u8]);
        emit(out, TelnetEvent::SubNegotiate(MTTS, data));
    }

    /// Carries out what follows when the client's side of `op` comes into
    /// effect.
    pub fn enable_remote(&mut self, op: u8, out: &mut Vec<TelnetEvent>)
        ensures
            final(self)@ == enable_remote_spec(old(self)@, op).0,
            sent(final(out)@) == sent(old(out)@) + enable_remote_spec(old(self)@, op).1,
            final(self).same_clock(&*old(self)),
    {
        if op == NAWS {
            self.config.set_naws(true);
        } else if op == MTTS {
            self.handshakes_left.ttype.insert(0);
            self.request_ttype(out);
        } else if op == LINEMODE {
            self.config.set_linemode(true);
        }
        proof {
            assert(self@ =~= enable_remote_spec(old(self)@, op).0);
            assert(sent(out@) =~= sent(old(out)@) + enable_remote_spec(old(self)@, op).1);
        }
    }

    /// Carries out what follows when the client's side of `op` goes out of
    /// effect.
    pub fn disable_remote(&mut self, op: u8)
        ensures
            final(self)@ == disable_remote_spec(old(self)@, op),
            final(self).same_clock(&*old(self)),
    {
        let ghost p = self@;
        if op == NAWS {
            self.config.forget_window();
            assert(self@ =~= disable_remote_spec(p, op));
        } else if op == MTTS {
            self.config.set_ttype(false);
            self.handshakes_left.ttype.clear();
            assert(self@ =~= disable_remote_spec(p, op));
        } else if op == LINEMODE {
            self.config.set_linemode(false);
            assert(self@ =~= disable_remote_spec(p, op));
        } else {
            assert(self@ =~= disable_remote_spec(p, op));
        }
    }

    /// Carries out what follows when the portal's side of `op` comes into
    /// effect.
    pub fn enable_local(&mut self, op: u8, out: &mut Vec<TelnetEvent>)
        ensures
            final(self)@ == enable_local_spec(old(self)@, op).0,
            sent(final(out)@) == sent(old(out)@) + enable_local_spec(old(self)@, op).1,
            final(self).same_clock(&*old(self)),
    {
        if op == SGA {
            self.config.set_sga(true);
        } else if op == MCCP2 {
            self.config.set_mccp2(true);
            emit(out, TelnetEvent::SubNegotiate(MCCP2, Vec::new()));
        } else if op == MCCP3 {
            self.config.set_mccp3(true);
        }
        proof {
            assert(self@ =~= enable_local_spec(old(self)@, op).0);
            assert(sent(out@) =~= sent(old(out)@) + enable_local_spec(old(self)@, op).1);
        }
    }

    /// Carries out what follows when the portal's side of `op` goes out of
    /// effect.
    pub fn disable_local(&mut self, op: u8)
        ensures
            final(self)@ == disable_local_spec(old(self)@, op),
            final(self).same_clock(&*old(self)),
    {
        if op == SGA {
            self.config.set_sga(false);
        }
        assert(self@ =~= disable_local_spec(old(self)@, op));
    }

    /// Handles a WILL, WONT, DO or DONT from the client.
    pub fn receive_negotiate(&mut self, command: u8, op: u8) -> (out: Vec<TelnetEvent>)
        ensures
            final(self)@ == negotiate_spec(old(self)@, command, op).0,
            sent(out@) == negotiate_spec(old(self)@, command, op).1,
            final(self).same_clock(&*old(self)),
    {
        let mut out: Vec<TelnetEvent> = Vec::new();
        let mut enable_local = false;
        let mut disable_local = false;
        let mut enable_remote = false;
        let mut disable_remote = false;
        let mut handshake_remote: u8 = 0;
        let mut handshake_local: u8 = 0;
        let mut respond: u8 = 0;

        let found = self.op_state.get(&op);
        match found {
            Some(state_ref) => {
                // The option is supported.
                let mut state = *state_ref;
                if command == WILL {
                    // The client offers its side, or accepts the portal's DO.
                    if !state.remote.enabled {
                        if state.remote.negotiating {
                            state.remote.negotiating = false;
                        } else {
                            respond = DO;
                        }
                        handshake_remote = op;
                        enable_remote = true;
                        state.remote.enabled = true;
                    }
                } else if command == WONT {
                    // The client refuses the portal's DO, or turns its side off.
                    if state.remote.negotiating {
                        handshake_remote = op;
                    }
                    state.remote.negotiating = false;
                    if state.remote.enabled {
                        disable_remote = true;
                        state.remote.enabled = false;
                    }
                } else if command == DO {
                    // The client asks for the portal's side, or accepts its WILL.
                    if !state.local.enabled {
                        if state.local.negotiating {
                            state.local.negotiating = false;
                        } else {
                            respond = WILL;
                        }
                        handshake_local = op;
                        enable_local = true;
                        state.local.enabled = true;
                    }
                } else if command == DONT {
                    // The client refuses the portal's WILL, or turns its side off.
                    if state.local.negotiating {
                        handshake_local = op;
                    }
                    state.local.negotiating = false;
                    if state.local.enabled {
                        disable_local = true;
                        state.local.enabled = false;
                    }
                }
                if command == WILL || command == WONT || command == DO || command == DONT {
                    self.op_state.insert(op, state);
                }
            },
            None => {
                // Not supported: refuse.
                respond = if command == WILL {
                    DONT
                } else if command == DO {
                    WONT
                } else {
                    0
                };
            },
        }
        let ghost p = old(self)@;
        let ghost after_state = self@;

        if respond > 0 {
            emit(&mut out, TelnetEvent::Negotiate(respond, op));
        }
        if handshake_local > 0 {
            self.handshakes_left.local.remove(&handshake_local);
        }
        if handshake_remote > 0 {
            self.handshakes_left.remote.remove(&handshake_remote);
        }
        let ghost q = self@;
        let ghost reply = sent(out@);
        proof {
            if p.options.contains_key(op) {
                let st = p.options[op];
                if command == WILL && !st.remote.enabled {
                    assert(q =~= ProtocolView {
                        options: p.options.insert(
                            op,
                            TelnetOptionState { remote: TelnetOptionPerspective { enabled: true, negotiating: false }, ..st },
                        ),
                        hs_remote: settle(p.hs_remote, op),
                        ..p
                    });
                } else if command == WONT {
                    assert(q =~= ProtocolView {
                        options: p.options.insert(
                            op,
                            TelnetOptionState { remote: TelnetOptionPerspective { enabled: false, negotiating: false }, ..st },
                        ),
                        hs_remote: if st.remote.negotiating { settle(p.hs_remote, op) } else { p.hs_remote },
                        ..p
                    });
                } else if command == DO && !st.local.enabled {
                    assert(q =~= ProtocolView {
                        options: p.options.insert(
                            op,
                            TelnetOptionState { local: TelnetOptionPerspective { enabled: true, negotiating: false }, ..st },
                        ),
                        hs_local: settle(p.hs_local, op),
                        ..p
                    });
                } else if command == DONT {
                    assert(q =~= ProtocolView {
                        options: p.options.insert(
                            op,
                            TelnetOptionState { local: TelnetOptionPerspective { enabled: false, negotiating: false }, ..st },
                        ),
                        hs_local: if st.local.negotiating { settle(p.hs_local, op) } else { p.hs_local },
                        ..p
                    });
                } else {
                    assert(q =~= p);
                }
            } else {
                assert(q =~= p);
            }
        }
        if enable_local {
            self.enable_local(op, &mut out);
        }
        if disable_local {
            self.disable_local(op);
        }
        if enable_remote {
            self.enable_remote(op, &mut out);
        }
        if disable_remote {
            self.disable_remote(op);
        }
        proof {
            assert(self@ =~= negotiate_spec(p, command, op).0);
            assert(sent(out@) =~= negotiate_spec(p, command, op).1);
        }
        out
    }
}


} // verus!
