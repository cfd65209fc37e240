//! The properties that hold of the portal across its operations.

use crate::capabilities::{ProtocolCapabilities, DEFAULT_HEIGHT, DEFAULT_WIDTH};
use crate::codes::{DO, DONT, GMCP, LINEMODE, MCCP2, MCCP3, MSDP, MSSP, MTTS, NAWS, SGA, TELOPT_EOR, WILL, WONT};
use crate::events::EventView;
use crate::options::{
    local_option, remote_option, TelnetOptionPerspective, TelnetOptionState, ALLOW_LOCAL, ALLOW_REMOTE,
    START_LOCAL, START_REMOTE,
};
use crate::protocol::{
    disable_local_spec, disable_remote_spec, enable_local_spec, enable_remote_spec, fresh, negotiate_spec, settle,
    start_prefix, start_spec, wf, with_config, ProtocolView,
};
use crate::session::{
    check_negotiation_spec, closed, negotiation_done, read_lines_spec, sub_spec, telnet_event_spec,
};
use crate::capabilities::XTERM256_COLOR;
use crate::terminal::{caps_kept, naws_spec, third_type_caps, ttype_ignored, ttype_spec, ttype_text};
use crate::text::{
    commands_of, crlf_expansion, crlf_prefix, crlf_spec, gmcp_text, iac_char, line_feed, mssp_text, space_index,
    split_lines,
};
use vstd::prelude::*;

verus! {

/// A negotiation command: WILL, WONT, DO or DONT.
pub open spec fn is_negotiation(command: u8) -> bool {
    command == WILL || command == WONT || command == DO || command == DONT
}

/// No event of the list is a WILL, WONT, DO or DONT.
pub open spec fn no_negotiation(ev: Seq<EventView>) -> bool {
    forall|i: int| 0 <= i < ev.len() ==> !(#[trigger] ev[i] is Negotiate)
}

/// The portal refuses every option that it does not support: a WILL is
/// answered with DONT, a DO with WONT, and the session stays as it was.
pub proof fn lemma_refuse_unsupported(p: ProtocolView, command: u8, op: u8)
    requires
        !p.options.contains_key(op),
    ensures
        negotiate_spec(p, command, op).0 == p,
        command == WILL ==> negotiate_spec(p, command, op).1 == seq![EventView::Negotiate(DONT, op)],
        command == DO ==> negotiate_spec(p, command, op).1 == seq![EventView::Negotiate(WONT, op)],
        command != WILL && command != DO ==> negotiate_spec(p, command, op).1 == Seq::<EventView>::empty(),
{
}

/// The effects that follow a change of an option leave the option states
/// and the side handshakes alone.
proof fn lemma_effects_keep_options(p: ProtocolView, op: u8)
    ensures
        enable_remote_spec(p, op).0.options == p.options,
        enable_remote_spec(p, op).0.hs_local == p.hs_local,
        enable_remote_spec(p, op).0.hs_remote == p.hs_remote,
        disable_remote_spec(p, op).options == p.options,
        disable_remote_spec(p, op).hs_local == p.hs_local,
        disable_remote_spec(p, op).hs_remote == p.hs_remote,
        enable_local_spec(p, op).0.options == p.options,
        enable_local_spec(p, op).0.hs_local == p.hs_local,
        enable_local_spec(p, op).0.hs_remote == p.hs_remote,
        disable_local_spec(p, op).options == p.options,
        disable_local_spec(p, op).hs_local == p.hs_local,
        disable_local_spec(p, op).hs_remote == p.hs_remote,
        enable_remote_spec(p, op).0.ttype_count == p.ttype_count,
        disable_remote_spec(p, op).ttype_count == p.ttype_count,
        enable_local_spec(p, op).0.ttype_count == p.ttype_count,
        disable_local_spec(p, op).ttype_count == p.ttype_count,
        enable_remote_spec(p, op).0.running == p.running,
        disable_remote_spec(p, op).running == p.running,
        enable_local_spec(p, op).0.running == p.running,
        disable_local_spec(p, op).running == p.running,
        enable_remote_spec(p, op).0.sent_link == p.sent_link && enable_remote_spec(p, op).0.active == p.active,
        disable_remote_spec(p, op).sent_link == p.sent_link && disable_remote_spec(p, op).active == p.active,
        enable_local_spec(p, op).0.sent_link == p.sent_link && enable_local_spec(p, op).0.active == p.active,
        disable_local_spec(p, op).sent_link == p.sent_link && disable_local_spec(p, op).active == p.active,
{
}

proof fn lemma_will_settles(p: ProtocolView, op: u8)
    requires
        p.options.contains_key(op),
    ensures
        negotiate_spec(negotiate_spec(p, WILL, op).0, WILL, op) == (negotiate_spec(p, WILL, op).0, Seq::<EventView>::empty()),
{
    let st = p.options[op];
    if !st.remote.enabled {
        let q1 = ProtocolView {
            options: p.options.insert(op, TelnetOptionState { remote: TelnetOptionPerspective { enabled: true, negotiating: false }, ..st }),
            hs_remote: settle(p.hs_remote, op),
            ..p
        };
        lemma_effects_keep_options(q1, op);
        let q = enable_remote_spec(q1, op).0;
        assert(q.options[op].remote.enabled);
    }
}

proof fn lemma_do_settles(p: ProtocolView, op: u8)
    requires
        p.options.contains_key(op),
    ensures
        negotiate_spec(negotiate_spec(p, DO, op).0, DO, op) == (negotiate_spec(p, DO, op).0, Seq::<EventView>::empty()),
{
    let st = p.options[op];
    if !st.local.enabled {
        let q1 = ProtocolView {
            options: p.options.insert(op, TelnetOptionState { local: TelnetOptionPerspective { enabled: true, negotiating: false }, ..st }),
            hs_local: settle(p.hs_local, op),
            ..p
        };
        lemma_effects_keep_options(q1, op);
        let q = enable_local_spec(q1, op).0;
        assert(q.options[op].local.enabled);
    }
}

proof fn lemma_wont_settles(p: ProtocolView, op: u8)
    requires
        p.options.contains_key(op),
    ensures
        negotiate_spec(negotiate_spec(p, WONT, op).0, WONT, op) == (negotiate_spec(p, WONT, op).0, Seq::<EventView>::empty()),
{
    let st = p.options[op];
    let q1 = ProtocolView {
        options: p.options.insert(op, TelnetOptionState { remote: TelnetOptionPerspective { enabled: false, negotiating: false }, ..st }),
        hs_remote: if st.remote.negotiating { settle(p.hs_remote, op) } else { p.hs_remote },
        ..p
    };
    lemma_effects_keep_options(q1, op);
    let q = negotiate_spec(p, WONT, op).0;
    assert(q.options == q1.options);
    let st2 = q.options[op];
    assert(st2 == TelnetOptionState { remote: TelnetOptionPerspective { enabled: false, negotiating: false }, ..st });
    assert(q.options.insert(op, TelnetOptionState { remote: TelnetOptionPerspective { enabled: false, negotiating: false }, ..st2 }) =~= q.options);
    assert(negotiate_spec(q, WONT, op).0 =~= q);
}

proof fn lemma_dont_settles(p: ProtocolView, op: u8)
    requires
        p.options.contains_key(op),
    ensures
        negotiate_spec(negotiate_spec(p, DONT, op).0, DONT, op) == (negotiate_spec(p, DONT, op).0, Seq::<EventView>::empty()),
{
    let st = p.options[op];
    let q1 = ProtocolView {
        options: p.options.insert(op, TelnetOptionState { local: TelnetOptionPerspective { enabled: false, negotiating: false }, ..st }),
        hs_local: if st.local.negotiating { settle(p.hs_local, op) } else { p.hs_local },
        ..p
    };
    lemma_effects_keep_options(q1, op);
    let q = negotiate_spec(p, DONT, op).0;
    assert(q.options == q1.options);
    let st2 = q.options[op];
    assert(st2 == TelnetOptionState { local: TelnetOptionPerspective { enabled: false, negotiating: false }, ..st });
    assert(q.options.insert(op, TelnetOptionState { local: TelnetOptionPerspective { enabled: false, negotiating: false }, ..st2 }) =~= q.options);
    assert(negotiate_spec(q, DONT, op).0 =~= q);
}

/// Negotiation cannot loop: once the portal has handled a WILL, WONT, DO or
/// DONT about a supported option, the same command again changes nothing
/// and is not answered.
pub proof fn lemma_negotiation_settles(p: ProtocolView, command: u8, op: u8)
    requires
        p.options.contains_key(op),
        is_negotiation(command),
    ensures
        negotiate_spec(negotiate_spec(p, command, op).0, command, op) == (negotiate_spec(p, command, op).0, Seq::<EventView>::empty()),
{
    if command == WILL {
        lemma_will_settles(p, op);
    } else if command == WONT {
        lemma_wont_settles(p, op);
    } else if command == DO {
        lemma_do_settles(p, op);
    } else {
        lemma_dont_settles(p, op);
    }
}

proof fn lemma_will_keeps_wf(p: ProtocolView, op: u8)
    requires
        wf(p),
    ensures
        wf(negotiate_spec(p, WILL, op).0),
{
    lemma_effects_keep_options(p, op);
    if p.options.contains_key(op) {
        let st = p.options[op];
        if !st.remote.enabled {
            let q1 = ProtocolView {
                options: p.options.insert(op, TelnetOptionState { remote: TelnetOptionPerspective { enabled: true, negotiating: false }, ..st }),
                hs_remote: settle(p.hs_remote, op),
                ..p
            };
            lemma_effects_keep_options(q1, op);
            assert(wf(q1));
            let q = negotiate_spec(p, WILL, op).0;
            assert(q.options == q1.options && q.hs_local == q1.hs_local && q.hs_remote == q1.hs_remote
                && q.ttype_count == q1.ttype_count);
        }
    }
}

proof fn lemma_wont_keeps_wf(p: ProtocolView, op: u8)
    requires
        wf(p),
    ensures
        wf(negotiate_spec(p, WONT, op).0),
{
    lemma_effects_keep_options(p, op);
    if p.options.contains_key(op) {
        let st = p.options[op];
        if true {
            let q1 = ProtocolView {
                options: p.options.insert(op, TelnetOptionState { remote: TelnetOptionPerspective { enabled: false, negotiating: false }, ..st }),
                hs_remote: if st.remote.negotiating { settle(p.hs_remote, op) } else { p.hs_remote },
                ..p
            };
            lemma_effects_keep_options(q1, op);
            assert(wf(q1));
            let q = negotiate_spec(p, WONT, op).0;
            assert(q.options == q1.options && q.hs_local == q1.hs_local && q.hs_remote == q1.hs_remote
                && q.ttype_count == q1.ttype_count);
        }
    }
}

proof fn lemma_do_keeps_wf(p: ProtocolView, op: u8)
    requires
        wf(p),
    ensures
        wf(negotiate_spec(p, DO, op).0),
{
    lemma_effects_keep_options(p, op);
    if p.options.contains_key(op) {
        let st = p.options[op];
        if !st.local.enabled {
            let q1 = ProtocolView {
                options: p.options.insert(op, TelnetOptionState { local: TelnetOptionPerspective { enabled: true, negotiating: false }, ..st }),
                hs_local: settle(p.hs_local, op),
                ..p
            };
            lemma_effects_keep_options(q1, op);
            assert(wf(q1));
            let q = negotiate_spec(p, DO, op).0;
            assert(q.options == q1.options && q.hs_local == q1.hs_local && q.hs_remote == q1.hs_remote
                && q.ttype_count == q1.ttype_count);
        }
    }
}

proof fn lemma_dont_keeps_wf(p: ProtocolView, op: u8)
    requires
        wf(p),
    ensures
        wf(negotiate_spec(p, DONT, op).0),
{
    lemma_effects_keep_options(p, op);
    if p.options.contains_key(op) {
        let st = p.options[op];
        if true {
            let q1 = ProtocolView {
                options: p.options.insert(op, TelnetOptionState { local: TelnetOptionPerspective { enabled: false, negotiating: false }, ..st }),
                hs_local: if st.local.negotiating { settle(p.hs_local, op) } else { p.hs_local },
                ..p
            };
            lemma_effects_keep_options(q1, op);
            assert(wf(q1));
            let q = negotiate_spec(p, DONT, op).0;
            assert(q.options == q1.options && q.hs_local == q1.hs_local && q.hs_remote == q1.hs_remote
                && q.ttype_count == q1.ttype_count);
        }
    }
}

/// Every negotiation keeps the invariant of a session: the handshakes
/// outstanding are exactly the options whose answer the portal awaits.
pub proof fn lemma_negotiate_keeps_wf(p: ProtocolView, command: u8, op: u8)
    requires
        wf(p),
    ensures
        wf(negotiate_spec(p, command, op).0),
{
    if command == WILL {
        lemma_will_keeps_wf(p, op);
    } else if command == WONT {
        lemma_wont_keeps_wf(p, op);
    } else if command == DO {
        lemma_do_keeps_wf(p, op);
    } else if command == DONT {
        lemma_dont_keeps_wf(p, op);
    }
}

/// An answer to a request of the portal settles it: after WILL or WONT for
/// an option that the portal asked the client for, or DO or DONT for one
/// that it offered, that handshake is no longer outstanding, the option is
/// in effect on that side exactly when the answer was WILL or DO, and the
/// portal does not answer the answer.
pub proof fn lemma_answer_settles_request(p: ProtocolView, command: u8, op: u8)
    requires
        wf(p),
        (command == WILL || command == WONT) && p.hs_remote.contains(op)
            || (command == DO || command == DONT) && p.hs_local.contains(op),
    ensures
        command == WILL || command == WONT ==> {
            let q = negotiate_spec(p, command, op).0;
            &&& q.hs_remote == p.hs_remote.remove(op)
            &&& q.hs_local == p.hs_local
            &&& !q.options[op].remote.negotiating
            &&& q.options[op].remote.enabled == (command == WILL)
        },
        command == DO || command == DONT ==> {
            let q = negotiate_spec(p, command, op).0;
            &&& q.hs_local == p.hs_local.remove(op)
            &&& q.hs_remote == p.hs_remote
            &&& !q.options[op].local.negotiating
            &&& q.options[op].local.enabled == (command == DO)
        },
        no_negotiation(negotiate_spec(p, command, op).1),
{
    lemma_effects_keep_options(p, op);
    let st = p.options[op];
    assert(op != 0);
    if command == WILL {
        let q1 = ProtocolView {
            options: p.options.insert(op, TelnetOptionState { remote: TelnetOptionPerspective { enabled: true, negotiating: false }, ..st }),
            hs_remote: settle(p.hs_remote, op),
            ..p
        };
        lemma_effects_keep_options(q1, op);
        assert(negotiate_spec(p, command, op).1 == enable_remote_spec(q1, op).1);
    } else if command == WONT {
        let q1 = ProtocolView {
            options: p.options.insert(op, TelnetOptionState { remote: TelnetOptionPerspective { enabled: false, negotiating: false }, ..st }),
            hs_remote: settle(p.hs_remote, op),
            ..p
        };
        lemma_effects_keep_options(q1, op);
    } else if command == DO {
        let q1 = ProtocolView {
            options: p.options.insert(op, TelnetOptionState { local: TelnetOptionPerspective { enabled: true, negotiating: false }, ..st }),
            hs_local: settle(p.hs_local, op),
            ..p
        };
        lemma_effects_keep_options(q1, op);
        assert(negotiate_spec(p, command, op).1 == enable_local_spec(q1, op).1);
    } else {
        let q1 = ProtocolView {
            options: p.options.insert(op, TelnetOptionState { local: TelnetOptionPerspective { enabled: false, negotiating: false }, ..st }),
            hs_local: settle(p.hs_local, op),
            ..p
        };
        lemma_effects_keep_options(q1, op);
    }
}

/// The handling flags of the table: an option of the portal's side starts
/// there and not on the client's, and the other way round.
pub proof fn lemma_option_flags()
    ensures
        local_option().has(START_LOCAL),
        !local_option().has(START_REMOTE),
        remote_option().has(START_REMOTE),
        !remote_option().has(START_LOCAL),
{
    assert((ALLOW_LOCAL | START_LOCAL) & START_LOCAL == START_LOCAL) by (bit_vector);
    assert((ALLOW_LOCAL | START_LOCAL) & START_REMOTE != START_REMOTE) by (bit_vector);
    assert((ALLOW_REMOTE | START_REMOTE) & START_REMOTE == START_REMOTE) by (bit_vector);
    assert((ALLOW_REMOTE | START_REMOTE) & START_LOCAL != START_LOCAL) by (bit_vector);
}

/// The options of the portal's own side.
pub open spec fn local_options() -> Set<u8> {
    set![SGA, MSSP, MCCP2, MCCP3, GMCP, MSDP, TELOPT_EOR]
}

/// The options of the client's side.
pub open spec fn remote_options() -> Set<u8> {
    set![NAWS, MTTS, LINEMODE]
}

/// The requests with which a connection opens.
pub open spec fn opening_events() -> Seq<EventView> {
    seq![
        EventView::Negotiate(WILL, SGA),
        EventView::Negotiate(DO, NAWS),
        EventView::Negotiate(DO, MTTS),
        EventView::Negotiate(WILL, MSSP),
        EventView::Negotiate(WILL, MCCP2),
        EventView::Negotiate(WILL, MCCP3),
        EventView::Negotiate(WILL, GMCP),
        EventView::Negotiate(WILL, MSDP),
        EventView::Negotiate(DO, LINEMODE),
        EventView::Negotiate(WILL, TELOPT_EOR),
    ]
}

/// Opening a fresh session offers each option of the portal's side with
/// WILL and asks for each of the client's side with DO, in the order of the
/// table; every one of them is then an outstanding handshake, and the
/// session keeps its invariant.
pub proof fn lemma_start_opens(p: ProtocolView)
    requires
        fresh(p),
    ensures
        start_spec(p).1 == opening_events(),
        start_spec(p).0.hs_local == local_options(),
        start_spec(p).0.hs_remote == remote_options(),
        start_spec(p).0.options.dom() == local_options() + remote_options(),
        wf(start_spec(p).0),
{
    lemma_option_flags();
    reveal_with_fuel(start_prefix, 11);
    let q = start_spec(p).0;
    assert(start_spec(p).1 =~= opening_events());
    assert(q.hs_local =~= local_options());
    assert(q.hs_remote =~= remote_options());
    assert(q.options.dom() =~= local_options() + remote_options());
}

/// A subnegotiation keeps the invariant and leaves a closed session closed.
proof fn lemma_sub_keeps_wf(p: ProtocolView, op: u8, data: Seq<u8>, q: ProtocolView, ev: Seq<EventView>)
    requires
        wf(p),
        sub_spec(p, op, data, q, ev),
    ensures
        wf(q),
        q.running == p.running,
        q.sent_link == p.sent_link,
{
    if p.options.contains_key(op) && op == MTTS {
        assert(ttype_spec(p, data, q, ev));
        assert(q.options == p.options && q.hs_local == p.hs_local && q.hs_remote == p.hs_remote);
    } else if p.options.contains_key(op) && op == NAWS {
        assert(q == naws_spec(p, data));
    }
}

/// Every event from the client keeps the invariant of a session.
pub proof fn lemma_event_keeps_wf(p: ProtocolView, e: EventView, q: ProtocolView, ev: Seq<EventView>, cmds: Seq<Seq<char>>)
    requires
        wf(p),
        telnet_event_spec(p, e, q, ev, cmds),
    ensures
        wf(q),
{
    match e {
        EventView::SubNegotiate(op, data) => lemma_sub_keeps_wf(p, op, data, q, ev),
        EventView::Negotiate(command, op) => lemma_negotiate_keeps_wf(p, command, op),
        EventView::Command(_) => {},
        EventView::Data(data) => {},
    }
}

/// A closed session stays closed: no event from the client, and no end of
/// a loop iteration, opens it again.
pub proof fn lemma_closed_stays_closed(
    p: ProtocolView,
    e: EventView,
    q: ProtocolView,
    ev: Seq<EventView>,
    cmds: Seq<Seq<char>>,
    in_negotiation: bool,
)
    requires
        !p.running,
        telnet_event_spec(p, e, q, ev, cmds),
    ensures
        !q.running,
        !check_negotiation_spec(p, in_negotiation).1.running,
{
    match e {
        EventView::SubNegotiate(op, data) => {
            if p.options.contains_key(op) && op == MTTS {
                assert(ttype_spec(p, data, q, ev));
            }
        },
        EventView::Negotiate(command, op) => lemma_negotiate_frame(p, command, op),
        EventView::Command(_) => {},
        EventView::Data(data) => {},
    }
}

/// The end of a loop iteration keeps the invariant; once the session is
/// linked to the game it stays linked, and it is linked at the latest when
/// the negotiation has ended.
pub proof fn lemma_check_negotiation(p: ProtocolView, in_negotiation: bool)
    requires
        wf(p),
    ensures
        wf(check_negotiation_spec(p, in_negotiation).1),
        p.sent_link ==> check_negotiation_spec(p, in_negotiation).1 == p,
        !check_negotiation_spec(p, in_negotiation).0 ==> check_negotiation_spec(p, in_negotiation).1.sent_link,
        check_negotiation_spec(p, in_negotiation).1.running == p.running,
{
}

/// The text sent for the first `n` characters is empty exactly when `n` is
/// 0, and ends with a carriage return when the character before `n` is one.
proof fn lemma_crlf_prefix_end(s: Seq<char>, n: int)
    requires
        0 < n <= s.len(),
    ensures
        crlf_prefix(s, n).len() > 0,
        s[n - 1] == '\r' ==> crlf_prefix(s, n).last() == '\r',
{
}

/// Every line feed in the text sent for the first `n` characters follows a
/// carriage return.
proof fn lemma_crlf_prefix_lines(s: Seq<char>, n: int)
    requires
        0 <= n <= s.len(),
    ensures
        forall|i: int| 0 <= i < crlf_prefix(s, n).len() && #[trigger] crlf_prefix(s, n)[i] == '\n'
            ==> i > 0 && crlf_prefix(s, n)[i - 1] == '\r',
    decreases n,
{
    if n > 0 {
        lemma_crlf_prefix_lines(s, n - 1);
        let a = crlf_prefix(s, n - 1);
        let b = crlf_expansion(s, n - 1);
        let out = crlf_prefix(s, n);
        assert(out == a + b);
        if n > 1 {
            lemma_crlf_prefix_end(s, n - 1);
        }
        assert forall|i: int| 0 <= i < out.len() && #[trigger] out[i] == '\n' implies i > 0 && out[i - 1] == '\r' by {
            if i < a.len() {
                assert(out[i] == a[i]);
                assert(out[i - 1] == a[i - 1]);
            } else {
                assert(out[i] == b[i - a.len()]);
                if i - a.len() == 1 {
                    assert(out[i - 1] == b[0]);
                } else {
                    assert(s[n - 1] == '\n');
                    assert(n > 1 && s[n - 2] == '\r');
                    assert(out[i - 1] == a.last());
                }
            }
        }
    }
}

/// In the text that `ensure_crlf` gives, every line feed follows a carriage
/// return: lines end in CR LF.
pub proof fn lemma_crlf_line_ends(s: Seq<char>)
    ensures
        forall|i: int| 0 <= i < crlf_spec(s).len() && #[trigger] crlf_spec(s)[i] == '\n'
            ==> i > 0 && crlf_spec(s)[i - 1] == '\r',
{
    lemma_crlf_prefix_lines(s, s.len() as int);
}

/// Text without line feeds and without the IAC character is sent as it is.
pub proof fn lemma_crlf_plain_text(s: Seq<char>)
    requires
        forall|i: int| 0 <= i < s.len() ==> s[i] != '\n' && s[i] != iac_char(),
    ensures
        crlf_spec(s) == s,
{
    assert forall|n: int| 0 <= n <= s.len() implies #[trigger] crlf_prefix(s, n) == s.take(n) by {
        lemma_crlf_plain_prefix(s, n);
    }
    assert(s.take(s.len() as int) =~= s);
}

proof fn lemma_crlf_plain_prefix(s: Seq<char>, n: int)
    requires
        0 <= n <= s.len(),
        forall|i: int| 0 <= i < s.len() ==> s[i] != '\n' && s[i] != iac_char(),
    ensures
        crlf_prefix(s, n) == s.take(n),
    decreases n,
{
    if n > 0 {
        lemma_crlf_plain_prefix(s, n - 1);
        assert(s.take(n) =~= s.take(n - 1) + seq![s[n - 1]]);
    }
}

/// The lines, each followed by a line feed, one after another.
pub open spec fn lines_joined(lines: Seq<Seq<u8>>) -> Seq<u8>
    decreases lines.len(),
{
    if lines.len() == 0 {
        seq![]
    } else {
        lines_joined(lines.drop_last()) + lines.last().push(line_feed())
    }
}

/// Splitting the typed bytes into lines loses and adds nothing: the lines,
/// each followed by its line feed, and then the rest, are the bytes again;
/// neither a line nor the rest holds a line feed.
pub proof fn lemma_split_lines(buf: Seq<u8>)
    ensures
        lines_joined(split_lines(buf).0) + split_lines(buf).1 == buf,
        forall|i: int| 0 <= i < split_lines(buf).1.len() ==> split_lines(buf).1[i] != line_feed(),
        forall|k: int, i: int| 0 <= k < split_lines(buf).0.len() && 0 <= i < split_lines(buf).0[k].len()
            ==> split_lines(buf).0[k][i] != line_feed(),
    decreases buf.len(),
{
    if buf.len() > 0 {
        let prev = buf.drop_last();
        lemma_split_lines(prev);
        let (lines, rest) = split_lines(prev);
        if buf.last() == line_feed() {
            let l2 = lines.push(rest);
            assert(l2.drop_last() =~= lines);
            assert(lines_joined(l2) + Seq::<u8>::empty() =~= lines_joined(lines) + rest.push(line_feed()));
            assert(prev.push(buf.last()) =~= buf);
            assert forall|k: int, i: int| 0 <= k < l2.len() && 0 <= i < l2[k].len() implies l2[k][i] != line_feed() by {
                if k < lines.len() {
                    assert(l2[k] == lines[k]);
                }
            }
        } else {
            assert(lines_joined(lines) + rest.push(buf.last()) =~= (lines_joined(lines) + rest).push(buf.last()));
            assert(prev.push(buf.last()) =~= buf);
        }
    }
}

/// Once the complete lines are taken out, the buffer holds no line feed.
pub proof fn lemma_buffer_holds_no_line(p: ProtocolView)
    ensures
        forall|i: int| 0 <= i < read_lines_spec(p).0.app_buffer.len() ==> read_lines_spec(p).0.app_buffer[i] != line_feed(),
{
    lemma_split_lines(p.app_buffer);
}

/// The MTTS bits only add: the colour support does not go down, and no
/// feature that was known goes away.
pub proof fn lemma_mtts_only_adds(c: crate::capabilities::ProtocolCapabilities, t: Seq<char>)
    ensures
        third_type_caps(c, t).ansi_color.level() >= c.ansi_color.level(),
        caps_kept(c, third_type_caps(c, t)),
{
    broadcast use crate::capabilities::Color::lemma_of_level;
}

/// When the client stops reporting its window, the portal assumes a 78 by
/// 24 window again.
pub proof fn lemma_naws_off_resets_window(p: ProtocolView)
    requires
        p.options.contains_key(NAWS),
        p.options[NAWS].remote.enabled,
    ensures
        !negotiate_spec(p, WONT, NAWS).0.config.naws,
        negotiate_spec(p, WONT, NAWS).0.config.width == DEFAULT_WIDTH,
        negotiate_spec(p, WONT, NAWS).0.config.height == DEFAULT_HEIGHT,
{
}

/// The session holds a state for each option of the table and no other,
/// and a handshake is outstanding only on the side where its option opens.
pub open spec fn opened(p: ProtocolView) -> bool {
    &&& p.options.dom() == local_options() + remote_options()
    &&& p.hs_local.subset_of(local_options())
    &&& p.hs_remote.subset_of(remote_options())
}

/// What a negotiation keeps: the options known, no handshake added, the
/// session's link to the game, and whether it runs.
spec fn negotiation_frame(p: ProtocolView, q: ProtocolView) -> bool {
    &&& q.options.dom() == p.options.dom()
    &&& q.hs_local.subset_of(p.hs_local)
    &&& q.hs_remote.subset_of(p.hs_remote)
    &&& q.sent_link == p.sent_link
    &&& q.active == p.active
    &&& q.running == p.running
    &&& q.ttype_count == p.ttype_count
}

proof fn lemma_will_frame(p: ProtocolView, op: u8)
    requires
        p.options.contains_key(op),
    ensures
        negotiation_frame(p, negotiate_spec(p, WILL, op).0),
{
    let st = p.options[op];
    if !st.remote.enabled {
        let q1 = ProtocolView {
            options: p.options.insert(op, TelnetOptionState { remote: TelnetOptionPerspective { enabled: true, negotiating: false }, ..st }),
            hs_remote: settle(p.hs_remote, op),
            ..p
        };
        lemma_effects_keep_options(q1, op);
        assert(q1.options.dom() =~= p.options.dom());
    }
}

proof fn lemma_wont_frame(p: ProtocolView, op: u8)
    requires
        p.options.contains_key(op),
    ensures
        negotiation_frame(p, negotiate_spec(p, WONT, op).0),
{
    let st = p.options[op];
    let q1 = ProtocolView {
        options: p.options.insert(op, TelnetOptionState { remote: TelnetOptionPerspective { enabled: false, negotiating: false }, ..st }),
        hs_remote: if st.remote.negotiating { settle(p.hs_remote, op) } else { p.hs_remote },
        ..p
    };
    lemma_effects_keep_options(q1, op);
    assert(q1.options.dom() =~= p.options.dom());
}

proof fn lemma_do_frame(p: ProtocolView, op: u8)
    requires
        p.options.contains_key(op),
    ensures
        negotiation_frame(p, negotiate_spec(p, DO, op).0),
{
    let st = p.options[op];
    if !st.local.enabled {
        let q1 = ProtocolView {
            options: p.options.insert(op, TelnetOptionState { local: TelnetOptionPerspective { enabled: true, negotiating: false }, ..st }),
            hs_local: settle(p.hs_local, op),
            ..p
        };
        lemma_effects_keep_options(q1, op);
        assert(q1.options.dom() =~= p.options.dom());
    }
}

proof fn lemma_dont_frame(p: ProtocolView, op: u8)
    requires
        p.options.contains_key(op),
    ensures
        negotiation_frame(p, negotiate_spec(p, DONT, op).0),
{
    let st = p.options[op];
    let q1 = ProtocolView {
        options: p.options.insert(op, TelnetOptionState { local: TelnetOptionPerspective { enabled: false, negotiating: false }, ..st }),
        hs_local: if st.local.negotiating { settle(p.hs_local, op) } else { p.hs_local },
        ..p
    };
    lemma_effects_keep_options(q1, op);
    assert(q1.options.dom() =~= p.options.dom());
}

/// A negotiation changes the state of a known option only: the options
/// known stay the same, no handshake is added, and the session's link to
/// the game and whether it runs stay as they were.
proof fn lemma_negotiate_frame(p: ProtocolView, command: u8, op: u8)
    ensures
        negotiation_frame(p, negotiate_spec(p, command, op).0),
{
    if p.options.contains_key(op) {
        if command == WILL {
            lemma_will_frame(p, op);
        } else if command == WONT {
            lemma_wont_frame(p, op);
        } else if command == DO {
            lemma_do_frame(p, op);
        } else if command == DONT {
            lemma_dont_frame(p, op);
        }
    }
}

/// An event from the client keeps the options known and adds no
/// handshake; it neither links the session to the game nor unlinks it.
proof fn lemma_event_frame(p: ProtocolView, e: EventView, q: ProtocolView, ev: Seq<EventView>, cmds: Seq<Seq<char>>)
    requires
        telnet_event_spec(p, e, q, ev, cmds),
    ensures
        q.options.dom() == p.options.dom(),
        q.hs_local.subset_of(p.hs_local),
        q.hs_remote.subset_of(p.hs_remote),
        q.sent_link == p.sent_link,
        q.active == p.active,
        p.ttype_count <= 1 ==> q.ttype_count <= 1,
{
    match e {
        EventView::SubNegotiate(op, data) => {
            if p.options.contains_key(op) && op == MTTS {
                assert(ttype_spec(p, data, q, ev));
                assert(q.options == p.options && q.hs_local == p.hs_local && q.hs_remote == p.hs_remote);
            } else if p.options.contains_key(op) && op == NAWS {
                assert(q == naws_spec(p, data));
            }
        },
        EventView::Negotiate(command, op) => lemma_negotiate_frame(p, command, op),
        EventView::Command(_) => {},
        EventView::Data(data) => {},
    }
}

/// The option table of a session holds for its whole life: opening a fresh
/// session gives each option of the table its state, with handshakes only
/// on the side where each option opens, and no event from the client, no
/// end of a loop iteration and no closing changes that.
pub proof fn lemma_opened_kept(
    p: ProtocolView,
    e: EventView,
    q: ProtocolView,
    ev: Seq<EventView>,
    cmds: Seq<Seq<char>>,
    in_negotiation: bool,
)
    requires
        telnet_event_spec(p, e, q, ev, cmds),
    ensures
        fresh(p) ==> opened(start_spec(p).0),
        opened(p) ==> opened(q),
        opened(p) ==> opened(check_negotiation_spec(p, in_negotiation).1),
        opened(p) ==> opened(closed(p)),
{
    if fresh(p) {
        lemma_start_opens(p);
    }
    lemma_event_frame(p, e, q, ev, cmds);
    if opened(p) {
        assert(q.hs_local.subset_of(local_options()));
        assert(q.hs_remote.subset_of(remote_options()));
    }
}

/// The session is linked to the game once the negotiation has ended, and
/// not before. While a handshake is outstanding and the time is not up, the
/// end of a loop iteration changes nothing and gives no command. At the
/// first end of an iteration after that, the session is linked and active,
/// the complete lines typed meanwhile become the commands, in order, and the
/// rest stays buffered. A linked session stays as it is at the end of an
/// iteration, and no event from the client links or unlinks it.
pub proof fn lemma_linked_after_negotiation(
    p: ProtocolView,
    in_negotiation: bool,
    e: EventView,
    q: ProtocolView,
    ev: Seq<EventView>,
    cmds: Seq<Seq<char>>,
)
    requires
        telnet_event_spec(p, e, q, ev, cmds),
    ensures
        in_negotiation && !negotiation_done(p) ==> check_negotiation_spec(p, in_negotiation) == (
        true,
        p,
        Seq::<Seq<char>>::empty(),
        ),
        (!in_negotiation || negotiation_done(p)) && !p.sent_link ==> {
            let (still, r, lines) = check_negotiation_spec(p, in_negotiation);
            &&& !still
            &&& r.sent_link && r.active
            &&& lines == commands_of(split_lines(p.app_buffer).0)
            &&& r == (ProtocolView { sent_link: true, active: true, app_buffer: split_lines(p.app_buffer).1, ..p })
        },
        p.sent_link ==> check_negotiation_spec(p, in_negotiation).1 == p
            && check_negotiation_spec(p, in_negotiation).2 == Seq::<Seq<char>>::empty(),
        q.sent_link == p.sent_link && q.active == p.active,
{
    lemma_event_frame(p, e, q, ev, cmds);
}

/// The count of terminal type answers never goes past 1: from a session
/// with at most one answer counted, no event from the client and no end of
/// a loop iteration counts a second.
pub proof fn lemma_ttype_count_stays_low(
    p: ProtocolView,
    e: EventView,
    q: ProtocolView,
    ev: Seq<EventView>,
    cmds: Seq<Seq<char>>,
    in_negotiation: bool,
)
    requires
        p.ttype_count <= 1,
        telnet_event_spec(p, e, q, ev, cmds),
    ensures
        q.ttype_count <= 1,
        check_negotiation_spec(p, in_negotiation).1.ttype_count <= 1,
{
    lemma_event_frame(p, e, q, ev, cmds);
}

/// The window follows NAWS: once the client has turned NAWS on and reported
/// a window of four bytes, the portal uses that window; when the client then
/// turns NAWS off, the portal no longer counts on NAWS and assumes a 78 by
/// 24 window again.
#[verifier::spinoff_prover]
pub proof fn lemma_naws_cycle(
    p: ProtocolView,
    data: Seq<u8>,
    q1: ProtocolView,
    q2: ProtocolView,
    q3: ProtocolView,
    ev1: Seq<EventView>,
    ev2: Seq<EventView>,
    ev3: Seq<EventView>,
    c1: Seq<Seq<char>>,
    c2: Seq<Seq<char>>,
    c3: Seq<Seq<char>>,
)
    requires
        p.options.contains_key(NAWS),
        telnet_event_spec(p, EventView::Negotiate(WILL, NAWS), q1, ev1, c1),
        telnet_event_spec(q1, EventView::SubNegotiate(NAWS, data), q2, ev2, c2),
        telnet_event_spec(q2, EventView::Negotiate(WONT, NAWS), q3, ev3, c3),
    ensures
        q1.options[NAWS].remote.enabled,
        data.len() >= 4 ==> q2.config.width == data[0] as u16 * 256 + data[1] as u16,
        data.len() >= 4 ==> q2.config.height == data[2] as u16 * 256 + data[3] as u16,
        !q3.config.naws,
        q3.config.width == DEFAULT_WIDTH,
        q3.config.height == DEFAULT_HEIGHT,
{
    lemma_negotiate_frame(p, WILL, NAWS);
    let st = p.options[NAWS];
    if !st.remote.enabled {
        let r = ProtocolView {
            options: p.options.insert(NAWS, TelnetOptionState { remote: TelnetOptionPerspective { enabled: true, negotiating: false }, ..st }),
            hs_remote: settle(p.hs_remote, NAWS),
            ..p
        };
        lemma_effects_keep_options(r, NAWS);
    }
    assert(q2 == naws_spec(q1, data));
    assert(q2.options == q1.options);
}

/// A session with its own capabilities is the session.
proof fn lemma_with_own_config(p: ProtocolView)
    ensures
        with_config(p, p.config) == p,
{
}

/// Only the last change of capabilities counts.
proof fn lemma_with_config_twice(p: ProtocolView, a: ProtocolCapabilities, b: ProtocolCapabilities)
    ensures
        with_config(with_config(p, a), b) == with_config(p, b),
{
}

proof fn lemma_sga_on(p: ProtocolView)
    ensures
        enable_local_spec(p, SGA).0 == with_config(p, ProtocolCapabilities { sga: true, ..p.config }),
{
}

proof fn lemma_sga_off(p: ProtocolView)
    ensures
        disable_local_spec(p, SGA) == with_config(p, ProtocolCapabilities { sga: false, ..p.config }),
{
}

/// Go Ahead suppression is undone exactly: turning the portal's SGA on and
/// then off leaves a session in which it was off as it was.
#[verifier::spinoff_prover]
pub proof fn lemma_sga_round_trip(p: ProtocolView)
    requires
        !p.config.sga,
    ensures
        disable_local_spec(enable_local_spec(p, SGA).0, SGA) == p,
{
    let on = ProtocolCapabilities { sga: true, ..p.config };
    let off = ProtocolCapabilities { sga: false, ..on };
    crate::capabilities::lemma_sga_restored(p.config);
    lemma_sga_on(p);
    let q1 = with_config(p, on);
    lemma_sga_off(q1);
    lemma_with_config_twice(p, on, off);
    lemma_with_own_config(p);
}

/// Turning off an option of the portal's side other than SGA changes
/// nothing.
pub proof fn lemma_disable_local_other(p: ProtocolView, op: u8)
    requires
        op != SGA,
    ensures
        disable_local_spec(p, op) == p,
{
}

/// A client's offer is accepted: a WILL for a supported option whose
/// client side is neither in effect nor asked for is answered with DO, and
/// a DO for one whose portal side is neither in effect nor offered is
/// answered with WILL; the side is then in effect and nothing is awaited.
/// Only the start of the terminal type exchange (a SEND request after MTTS)
/// and of compression (an empty MCCP2 subnegotiation) follow the answer. An
/// answer to the portal's own request is not answered again, and an offer
/// of what is already in effect is ignored.
pub proof fn lemma_offer_accepted(p: ProtocolView, op: u8)
    requires
        p.options.contains_key(op),
    ensures
        !p.options[op].remote.enabled && !p.options[op].remote.negotiating ==> {
            let (q, ev) = negotiate_spec(p, WILL, op);
            &&& ev == seq![EventView::Negotiate(DO, op)] + if op == MTTS {
                seq![EventView::SubNegotiate(MTTS, seq![1u8])]
            } else {
                Seq::<EventView>::empty()
            }
            &&& q.options[op].remote.enabled && !q.options[op].remote.negotiating
        },
        !p.options[op].remote.enabled && p.options[op].remote.negotiating ==> {
            let (q, ev) = negotiate_spec(p, WILL, op);
            &&& ev == if op == MTTS {
                seq![EventView::SubNegotiate(MTTS, seq![1u8])]
            } else {
                Seq::<EventView>::empty()
            }
            &&& q.options[op].remote.enabled && !q.options[op].remote.negotiating
        },
        p.options[op].remote.enabled ==> negotiate_spec(p, WILL, op) == (p, Seq::<EventView>::empty()),
        !p.options[op].local.enabled && !p.options[op].local.negotiating ==> {
            let (q, ev) = negotiate_spec(p, DO, op);
            &&& ev == seq![EventView::Negotiate(WILL, op)] + if op == MCCP2 {
                seq![EventView::SubNegotiate(MCCP2, Seq::<u8>::empty())]
            } else {
                Seq::<EventView>::empty()
            }
            &&& q.options[op].local.enabled && !q.options[op].local.negotiating
        },
        !p.options[op].local.enabled && p.options[op].local.negotiating ==> {
            let (q, ev) = negotiate_spec(p, DO, op);
            &&& ev == if op == MCCP2 {
                seq![EventView::SubNegotiate(MCCP2, Seq::<u8>::empty())]
            } else {
                Seq::<EventView>::empty()
            }
            &&& q.options[op].local.enabled && !q.options[op].local.negotiating
        },
        p.options[op].local.enabled ==> negotiate_spec(p, DO, op) == (p, Seq::<EventView>::empty()),
        negotiate_spec(p, WONT, op).1 == Seq::<EventView>::empty(),
        negotiate_spec(p, DONT, op).1 == Seq::<EventView>::empty(),
{
    let st = p.options[op];
    if !st.remote.enabled {
        let q1 = ProtocolView {
            options: p.options.insert(op, TelnetOptionState { remote: TelnetOptionPerspective { enabled: true, negotiating: false }, ..st }),
            hs_remote: settle(p.hs_remote, op),
            ..p
        };
        lemma_effects_keep_options(q1, op);
        assert(seq![EventView::Negotiate(DO, op)] + Seq::<EventView>::empty() =~= seq![EventView::Negotiate(DO, op)]);
        assert(Seq::<EventView>::empty() + seq![EventView::SubNegotiate(MTTS, seq![1u8])] =~= seq![EventView::SubNegotiate(MTTS, seq![1u8])]);
        assert(Seq::<EventView>::empty() + Seq::<EventView>::empty() =~= Seq::<EventView>::empty());
    }
    if !st.local.enabled {
        let q1 = ProtocolView {
            options: p.options.insert(op, TelnetOptionState { local: TelnetOptionPerspective { enabled: true, negotiating: false }, ..st }),
            hs_local: settle(p.hs_local, op),
            ..p
        };
        lemma_effects_keep_options(q1, op);
        assert(seq![EventView::Negotiate(WILL, op)] + Seq::<EventView>::empty() =~= seq![EventView::Negotiate(WILL, op)]);
        assert(Seq::<EventView>::empty() + seq![EventView::SubNegotiate(MCCP2, Seq::<u8>::empty())] =~= seq![EventView::SubNegotiate(MCCP2, Seq::<u8>::empty())]);
        assert(Seq::<EventView>::empty() + Seq::<EventView>::empty() =~= Seq::<EventView>::empty());
    }
}

/// A first terminal type that names a client known to show the xterm
/// 256-colour palette (ATLANTIS, CMUD, KILDCLIENT, MUDLET, MUSHCLIENT,
/// PUTTY, BEIP, POTATO or TINYFUGUE, before any space) records that name
/// and 256 colours, whatever colours were known before.
pub proof fn lemma_known_clients_show_256_colours(p: ProtocolView, data: Seq<u8>, q: ProtocolView, ev: Seq<EventView>)
    requires
        ttype_spec(p, data, q, ev),
        !ttype_ignored(p, data),
        p.ttype_count == 0,
        ({
            let t = ttype_text(data);
            let name = t.take(space_index(t));
            ||| name == "ATLANTIS"@
            ||| name == "CMUD"@
            ||| name == "KILDCLIENT"@
            ||| name == "MUDLET"@
            ||| name == "MUSHCLIENT"@
            ||| name == "PUTTY"@
            ||| name == "BEIP"@
            ||| name == "POTATO"@
            ||| name == "TINYFUGUE"@
        }),
    ensures
        q.config.ansi_color.level() == XTERM256_COLOR,
        q.config.client_name@ == ttype_text(data).take(space_index(ttype_text(data))),
        ev == seq![EventView::SubNegotiate(MTTS, seq![1u8])],
{
    broadcast use crate::capabilities::Color::lemma_of_level;
}

/// Typed bytes are added to what is buffered, never in place of it. Before
/// the session is linked they wait in the buffer after the bytes already
/// there. Once it is linked, the lines come from the old buffer followed by
/// the new bytes: the commands are those lines, in order, and the lines,
/// each with its line feed, followed by what stays buffered, are exactly
/// the old buffer followed by the new bytes; what stays holds no line feed.
pub proof fn lemma_typed_bytes_appended(p: ProtocolView, data: Seq<u8>, q: ProtocolView, ev: Seq<EventView>, cmds: Seq<Seq<char>>)
    requires
        telnet_event_spec(p, EventView::Data(data), q, ev, cmds),
    ensures
        ev == Seq::<EventView>::empty(),
        !p.sent_link ==> q.app_buffer == p.app_buffer + data && cmds == Seq::<Seq<char>>::empty(),
        p.sent_link ==> {
            let lines = split_lines(p.app_buffer + data).0;
            &&& cmds == commands_of(lines)
            &&& lines_joined(lines) + q.app_buffer == p.app_buffer + data
            &&& forall|i: int| 0 <= i < q.app_buffer.len() ==> q.app_buffer[i] != line_feed()
        },
        q == (ProtocolView { app_buffer: q.app_buffer, ..p }),
{
    lemma_split_lines(p.app_buffer + data);
}

/// The MSSP status text holds one `name value` line per variable, in
/// order, the lines joined by CR LF: no variables give no text, one gives
/// its line, and one more adds CR LF and its line.
pub proof fn lemma_mssp_lines(entries: Seq<(String, String)>, e: (String, String))
    ensures
        mssp_text(Seq::empty()) == Seq::<char>::empty(),
        mssp_text(seq![e]) == e.0@ + seq![' '] + e.1@,
        entries.len() > 0 ==> mssp_text(entries.push(e)) == mssp_text(entries) + seq!['\r', '\n'] + e.0@ + seq![' '] + e.1@,
{
    assert(seq![e].len() == 1);
    if entries.len() > 0 {
        assert(entries.push(e).drop_last() =~= entries);
        assert(mssp_text(entries) + seq!['\r', '\n'] + (e.0@ + seq![' '] + e.1@) =~= mssp_text(entries) + seq!['\r', '\n'] + e.0@ + seq![' '] + e.1@);
    }
}

/// Negotiation goes on while any handshake is outstanding, of the portal's
/// side, of the client's side, or of the terminal type exchange: the end of
/// a loop iteration then leaves the session unlinked and as it was, and
/// gives no command. When none is outstanding, or the time is up, it ends.
pub proof fn lemma_negotiation_waits_for_every_handshake(p: ProtocolView)
    ensures
        !p.hs_local.is_empty() || !p.hs_remote.is_empty() || !p.hs_ttype.is_empty() ==> check_negotiation_spec(p, true) == (
        true,
        p,
        Seq::<Seq<char>>::empty(),
        ),
        p.hs_local.is_empty() && p.hs_remote.is_empty() && p.hs_ttype.is_empty() ==> !check_negotiation_spec(p, true).0,
        !check_negotiation_spec(p, false).0,
        !p.sent_link && (!p.hs_local.is_empty() || !p.hs_remote.is_empty() || !p.hs_ttype.is_empty())
            ==> !check_negotiation_spec(p, true).1.sent_link,
{
}

/// A GMCP message is its package name, one space, and then the body: the
/// package name is the text before the first space, and the body all that
/// follows it, whatever the body holds.
pub proof fn lemma_gmcp_text_parts(package: Seq<char>, body: Seq<char>)
    requires
        !package.contains(' '),
    ensures
        gmcp_text(package, body).len() == package.len() + 1 + body.len(),
        space_index(gmcp_text(package, body)) == package.len(),
        gmcp_text(package, body).take(package.len() as int) == package,
        gmcp_text(package, body).skip(package.len() as int + 1) == body,
{
    let t = gmcp_text(package, body);
    assert forall|j: int| 0 <= j < package.len() implies t[j] != ' ' by {
        assert(t[j] == package[j]);
    }
    crate::text::lemma_space_index_at(t, package.len() as int);
    assert(t.take(package.len() as int) =~= package);
    assert(t.skip(package.len() as int + 1) =~= body);
}

} // verus!
