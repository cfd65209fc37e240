use std::sync::Arc;
use std::time::Instant;

use surrealmud_portal::capabilities::{Color, ProtocolCapabilities};
use surrealmud_portal::codes::{DO, DONT, GMCP, LINEMODE, MCCP2, MSSP, MTTS, NAWS, SGA, WILL, WONT};
use surrealmud_portal::config::TotalConf;
use surrealmud_portal::events::{Msg2Surreal, Msg2TelnetProtocol, TelnetEvent};
use surrealmud_portal::options::{telnet_options, TelnetHandshakes, TelnetOptionState, START_LOCAL, START_REMOTE};
use surrealmud_portal::protocol::{TelnetProtocol, TelnetTimers};
use surrealmud_portal::session::{ConnectionError, UserCommand};

fn session() -> TelnetProtocol {
    TelnetProtocol::new(
        Arc::new(TotalConf::default()),
        "127.0.0.1".to_string(),
        4000,
        vec!["localhost".to_string()],
        false,
    )
}

fn started() -> TelnetProtocol {
    let mut p = session();
    p.start();
    p
}

fn negotiations(events: &[TelnetEvent]) -> Vec<(u8, u8)> {
    events
        .iter()
        .filter_map(|e| match e {
            TelnetEvent::Negotiate(c, o) => Some((*c, *o)),
            _ => None,
        })
        .collect()
}

fn ttype_answer(text: &str) -> Vec<u8> {
    let mut data = vec![0u8];
    data.extend_from_slice(text.as_bytes());
    data
}

#[test]
fn default_capabilities_are_unknown() {
    let c = ProtocolCapabilities::default();
    assert_eq!(c.protocol, "telnet");
    assert_eq!(c.client_name, "UNKNOWN");
    assert_eq!(c.client_version, "UNKNOWN");
    assert_eq!(c.host_address, "UNKNOWN");
    assert_eq!((c.width, c.height), (78, 24));
    assert_eq!(c.ansi_color, Color::no_color());
    assert!(!c.naws && !c.sga && !c.mccp2 && !c.utf8 && !c.tls);
    assert!(c.host_names.is_empty());
}

#[test]
fn color_ranks_are_ordered() {
    assert_eq!(Color::no_color().rank(), 0);
    assert_eq!(Color::standard().rank(), 1);
    assert_eq!(Color::xterm256().rank(), 2);
    assert_eq!(Color::true_color().rank(), 3);
}

#[test]
fn handshakes_len_counts_all_sides() {
    let mut h = TelnetHandshakes::default();
    assert_eq!(h.len(), 0);
    assert!(h.is_empty());
    h.local.insert(3);
    h.remote.insert(31);
    h.remote.insert(24);
    h.ttype.insert(0);
    assert_eq!(h.len(), 4);
    assert!(!h.is_empty());
}

#[test]
fn option_states_start_idle() {
    let s = TelnetOptionState::default();
    assert!(!s.local.enabled && !s.local.negotiating && !s.remote.enabled && !s.remote.negotiating);
    let table = telnet_options();
    assert_eq!(table.len(), 10);
    assert!(table[0].1.contains(START_LOCAL));
    assert!(table[1].1.contains(START_REMOTE));
}

#[test]
fn new_session_records_the_connection() {
    let p = session();
    assert!(p.running && !p.active && !p.sent_link);
    assert_eq!(p.config.host_address, "127.0.0.1");
    assert_eq!(p.config.host_port, 4000);
    assert_eq!(p.config.host_names, vec!["localhost".to_string()]);
    assert!(!p.config.tls);
    assert_eq!(p.config.client_name, "UNKNOWN");
    assert!(p.op_state.is_empty());
    assert!(p.handshakes_left.is_empty());
    let _ = TelnetTimers::default();
}

#[test]
fn start_offers_and_asks_for_every_supported_option() {
    let mut p = session();
    let out = p.start();
    assert_eq!(
        negotiations(&out),
        vec![
            (WILL, SGA),
            (DO, NAWS),
            (DO, MTTS),
            (WILL, MSSP),
            (WILL, MCCP2),
            (WILL, 87),
            (WILL, GMCP),
            (WILL, 69),
            (DO, LINEMODE),
            (WILL, 25),
        ]
    );
    assert_eq!(p.handshakes_left.local.len(), 7);
    assert_eq!(p.handshakes_left.remote.len(), 3);
    assert!(p.op_state[&SGA].local.negotiating);
    assert!(p.op_state[&NAWS].remote.negotiating);
}

#[test]
fn unsupported_options_are_refused() {
    let mut p = started();
    assert_eq!(negotiations(&p.receive_negotiate(WILL, 99)), vec![(DONT, 99)]);
    assert_eq!(negotiations(&p.receive_negotiate(DO, 99)), vec![(WONT, 99)]);
    assert!(p.receive_negotiate(WONT, 99).is_empty());
    assert!(p.receive_negotiate(DONT, 99).is_empty());
}

#[test]
fn answer_to_portal_request_settles_the_handshake() {
    let mut p = started();
    let out = p.receive_negotiate(DO, SGA);
    assert!(out.is_empty());
    assert!(p.config.sga);
    assert!(p.op_state[&SGA].local.enabled);
    assert!(!p.op_state[&SGA].local.negotiating);
    assert!(!p.handshakes_left.local.contains(&SGA));
}

#[test]
fn refusal_settles_the_handshake_without_enabling() {
    let mut p = started();
    let out = p.receive_negotiate(WONT, LINEMODE);
    assert!(out.is_empty());
    assert!(!p.config.linemode);
    assert!(!p.handshakes_left.remote.contains(&LINEMODE));
    assert!(!p.op_state[&LINEMODE].remote.enabled);
}

#[test]
fn client_initiated_option_is_answered_once() {
    let mut p = started();
    p.receive_negotiate(DONT, SGA);
    assert_eq!(negotiations(&p.receive_negotiate(DO, SGA)), vec![(WILL, SGA)]);
    assert!(p.config.sga);
    assert!(p.receive_negotiate(DO, SGA).is_empty());
}

#[test]
fn repeated_command_changes_nothing() {
    let mut p = started();
    p.receive_negotiate(WILL, NAWS);
    assert!(p.config.naws);
    let out = p.receive_negotiate(WILL, NAWS);
    assert!(out.is_empty());
    p.receive_negotiate(WONT, NAWS);
    assert!(p.receive_negotiate(WONT, NAWS).is_empty());
    assert!(!p.config.naws);
}

#[test]
fn mccp2_starts_compression() {
    let mut p = started();
    let out = p.receive_negotiate(DO, MCCP2);
    assert_eq!(out.len(), 1);
    match &out[0] {
        TelnetEvent::SubNegotiate(o, d) => {
            assert_eq!(*o, MCCP2);
            assert!(d.is_empty());
        },
        _ => panic!("expected the start of compression"),
    }
    assert!(p.config.mccp2);
}

#[test]
fn naws_report_sets_the_window_and_refusal_resets_it() {
    let mut p = started();
    p.receive_negotiate(WILL, NAWS);
    let out = p.receive_sub(NAWS, &vec![0, 120, 0, 40]);
    assert!(out.is_empty());
    assert_eq!((p.config.width, p.config.height), (120, 40));
    p.receive_sub(NAWS, &vec![1, 2, 3]);
    assert_eq!((p.config.width, p.config.height), (120, 40));
    p.receive_negotiate(WONT, NAWS);
    assert_eq!((p.config.width, p.config.height), (78, 24));
    assert!(!p.config.naws);
}

#[test]
fn subnegotiation_of_unsupported_option_is_ignored() {
    let mut p = session();
    p.receive_sub(NAWS, &vec![0, 120, 0, 40]);
    assert_eq!((p.config.width, p.config.height), (78, 24));
}

#[test]
fn ttype_exchange_names_the_client() {
    let mut p = started();
    let out = p.receive_negotiate(WILL, MTTS);
    assert_eq!(out.len(), 1);
    match &out[0] {
        TelnetEvent::SubNegotiate(o, d) => assert_eq!((*o, d.clone()), (MTTS, vec![1])),
        _ => panic!("expected a terminal type request"),
    }
    assert!(p.handshakes_left.ttype.contains(&0));
    let out = p.receive_ttype(&ttype_answer(" mudlet 4.17 "));
    assert_eq!(out.len(), 1);
    assert_eq!(p.config.client_name, "MUDLET");
    assert_eq!(p.config.client_version, "4.17");
    assert_eq!(p.config.ansi_color, Color::xterm256());
    assert_eq!(p.ttype_count, 1);
    assert_eq!(p.ttype_last, Some("MUDLET 4.17".to_string()));
    assert!(!p.handshakes_left.ttype.contains(&0));
}

#[test]
fn ttype_second_answer_may_show_256_colours() {
    let mut p = started();
    p.receive_negotiate(WILL, MTTS);
    p.receive_ttype(&ttype_answer("tintin++"));
    assert_eq!(p.config.client_name, "TINTIN++");
    assert_eq!(p.config.client_version, "UNKNOWN");
    assert_eq!(p.config.ansi_color, Color::no_color());
    p.handshakes_left.ttype.insert(1);
    let out = p.receive_ttype(&ttype_answer("xterm-256color"));
    assert!(out.is_empty());
    assert_eq!(p.config.ansi_color, Color::xterm256());
    assert_eq!(p.ttype_last, Some("XTERM-256COLOR".to_string()));
}

#[test]
fn ttype_repeated_answer_ends_the_exchange() {
    let mut p = started();
    p.receive_negotiate(WILL, MTTS);
    p.receive_ttype(&ttype_answer("zmud"));
    p.handshakes_left.ttype.insert(1);
    p.receive_ttype(&ttype_answer("ZMUD"));
    assert!(p.handshakes_left.ttype.is_empty());
    assert_eq!(p.ttype_last, None);
}

#[test]
fn ttype_answers_that_are_not_heeded() {
    let mut p = started();
    let before = p.config.client_name.clone();
    assert!(p.receive_ttype(&ttype_answer("MUDLET")).is_empty());
    assert_eq!(p.config.client_name, before);
    p.receive_negotiate(WILL, MTTS);
    assert!(p.receive_ttype(&vec![1, b'X', b'Y']).is_empty());
    assert!(p.receive_ttype(&vec![0]).is_empty());
    assert!(p.receive_ttype(&vec![0, 0xff, 0xfe]).is_empty());
    assert_eq!(p.ttype_count, 0);
}

#[test]
fn mtts_bits_add_capabilities() {
    let mut p = started();
    p.ttype_count = 2;
    p.ttype_last = Some("XTERM".to_string());
    p.handshakes_left.ttype.insert(2);
    p.receive_ttype(&ttype_answer("MTTS 399"));
    assert_eq!(p.config.ansi_color, Color::true_color());
    assert!(p.config.vt100 && p.config.utf8 && p.config.proxy);
    assert!(!p.config.mouse_tracking && !p.config.screen_reader && !p.config.mnes);
    assert!(p.handshakes_left.ttype.is_empty());
    assert_eq!(p.ttype_last, None);
}

#[test]
fn mtts_bits_never_lower_colours() {
    let mut p = started();
    p.config.ansi_color = Color::true_color();
    p.ttype_count = 2;
    p.ttype_last = Some("XTERM".to_string());
    p.handshakes_left.ttype.insert(2);
    p.receive_ttype(&ttype_answer("MTTS 1"));
    assert_eq!(p.config.ansi_color, Color::true_color());
}

#[test]
fn mtts_without_number_adds_nothing() {
    let mut p = started();
    p.ttype_count = 2;
    p.ttype_last = Some("XTERM".to_string());
    p.handshakes_left.ttype.insert(2);
    p.receive_ttype(&ttype_answer("MTTS many"));
    assert_eq!(p.config.ansi_color, Color::no_color());
    assert!(!p.config.utf8);
}

#[test]
fn typed_lines_wait_for_the_link() {
    let mut p = started();
    let (out, commands) = p.process_telnet_event(TelnetEvent::Data(b"look\r\n".to_vec()));
    assert!(out.is_empty() && commands.is_empty());
    assert_eq!(p.app_buffer, b"look\r\n".to_vec());
    let (still, commands) = p.check_negotiation(false);
    assert!(!still);
    assert!(p.sent_link && p.active);
    assert_eq!(commands, vec!["look".to_string()]);
    assert!(p.app_buffer.is_empty());
    let (_, commands) = p.process_telnet_event(TelnetEvent::Data(b"say hi\npart".to_vec()));
    assert_eq!(commands, vec!["say hi".to_string()]);
    assert_eq!(p.app_buffer, b"part".to_vec());
}

#[test]
fn negotiation_ends_when_no_handshake_is_left() {
    let mut p = session();
    let (still, _) = p.check_negotiation(true);
    assert!(!still);
    assert!(p.sent_link);
    let mut p = started();
    let (still, _) = p.check_negotiation(true);
    assert!(still);
    assert!(!p.sent_link);
    let (still, _) = p.check_negotiation(false);
    assert!(!still && p.sent_link);
}

#[test]
fn connection_end_closes_the_session() {
    let mut p = started();
    let (out, commands) = p.handle_conn(Instant::now(), None);
    assert!(out.is_empty() && commands.is_empty());
    assert!(!p.running);
    let mut p = started();
    p.handle_conn(Instant::now(), Some(Err(ConnectionError)));
    assert!(!p.running);
    let mut p = started();
    let (out, _) = p.handle_conn(Instant::now(), Some(Ok(TelnetEvent::Negotiate(WILL, 99))));
    assert_eq!(negotiations(&out), vec![(DONT, 99)]);
    assert!(p.running);
}

#[test]
fn closed_session_stays_closed() {
    let mut p = started();
    p.send_failed();
    assert!(!p.running);
    p.receive_negotiate(DO, SGA);
    p.process_telnet_event(TelnetEvent::Data(b"x\n".to_vec()));
    p.check_negotiation(false);
    assert!(!p.running);
}

#[test]
fn game_messages_become_telnet_events() {
    let mut p = started();
    let out = p.process_protocol_message(Msg2TelnetProtocol::Text("Hello\nWorld".to_string()));
    match &out[..] {
        [TelnetEvent::Data(d)] => assert_eq!(d.clone(), b"Hello\r\nWorld".to_vec()),
        _ => panic!("expected text"),
    }
    let out = p.process_protocol_message(Msg2TelnetProtocol::MSSP(vec![
        ("NAME".to_string(), "Surreal".to_string()),
        ("UPTIME".to_string(), "12".to_string()),
    ]));
    match &out[..] {
        [TelnetEvent::SubNegotiate(o, d)] => {
            assert_eq!(*o, MSSP);
            assert_eq!(d.clone(), b"NAME Surreal\r\nUPTIME 12".to_vec());
        },
        _ => panic!("expected MSSP"),
    }
    let body: serde_json::Value = serde_json::from_str("{\"hp\":10}").unwrap();
    let out = p.process_protocol_message(Msg2TelnetProtocol::GMCP("Char.Vitals".to_string(), body));
    match &out[..] {
        [TelnetEvent::SubNegotiate(o, d)] => {
            assert_eq!(*o, GMCP);
            assert_eq!(d.clone(), b"Char.Vitals {\"hp\":10}".to_vec());
        },
        _ => panic!("expected GMCP"),
    }
    assert!(p.running);
    let out = p.process_protocol_message(Msg2TelnetProtocol::GameClose);
    assert!(out.is_empty());
    assert!(!p.running);
}

#[test]
fn user_commands_go_where_they_belong() {
    let mut p = session();
    assert!(matches!(p.handle_user_command("look".to_string()), UserCommand::Ignored));
    assert!(matches!(p.handle_user_command("//who".to_string()), UserCommand::Protocol(c) if c == "//who"));
    p.check_negotiation(false);
    assert!(matches!(p.handle_user_command("look".to_string()), UserCommand::Game(c) if c == "look"));
}

#[test]
fn interval_timer_is_recorded() {
    let mut p = session();
    let now = Instant::now();
    p.handle_interval_timer(now);
    assert_eq!(p.timers.last_interval, now);
}

#[test]
fn capabilities_message_carries_a_copy() {
    let p = session();
    match Msg2Surreal::Capabilities(p.config.clone()) {
        Msg2Surreal::Capabilities(c) => assert_eq!(c.host_port, 4000),
        Msg2Surreal::Command(_) => panic!("expected capabilities"),
    }
}

#[test]
fn first_answer_read_names_the_client() {
    let mut p = started();
    p.receive_negotiate(WILL, MTTS);
    let out = p.first_ttype_answer("XTERM".to_string());
    assert_eq!(out.len(), 1);
    assert_eq!(p.config.client_name, "XTERM");
    assert_eq!(p.config.ansi_color, Color::xterm256());
    assert_eq!(p.ttype_count, 1);
    assert_eq!(p.ttype_last, Some("XTERM".to_string()));
    assert!(!p.handshakes_left.ttype.contains(&0));
}

#[test]
fn later_answer_read_is_taken_as_the_second() {
    let mut p = started();
    p.receive_negotiate(WILL, MTTS);
    p.first_ttype_answer("TINTIN++".to_string());
    p.handshakes_left.ttype.insert(1);
    p.later_ttype_answer("ANSI-256COLOR".to_string());
    assert_eq!(p.config.ansi_color, Color::xterm256());
    assert_eq!(p.ttype_last, Some("ANSI-256COLOR".to_string()));
    assert!(!p.handshakes_left.ttype.contains(&1));
    assert_eq!(p.ttype_count, 1);
    p.later_ttype_answer("ANSI-256COLOR".to_string());
    assert!(p.handshakes_left.ttype.is_empty());
    assert_eq!(p.ttype_last, None);
}

#[test]
fn third_type_with_bits_settles_its_request() {
    let mut p = started();
    p.handshakes_left.ttype.insert(2);
    p.handshakes_left.ttype.insert(1);
    p.receive_ttype_2("MTTS 137");
    assert_eq!(p.config.ansi_color, Color::xterm256());
    assert!(p.config.proxy && !p.config.vt100);
    assert!(!p.handshakes_left.ttype.contains(&2));
    assert!(p.handshakes_left.ttype.contains(&1));
}

#[test]
fn third_type_without_bits_keeps_its_request() {
    for text in ["MTTS 0", "MTTS -3", "MTTS x", "XTERM"] {
        let mut p = started();
        p.handshakes_left.ttype.insert(2);
        p.config.vt100 = true;
        p.receive_ttype_2(text);
        assert!(p.handshakes_left.ttype.contains(&2));
        assert!(p.config.vt100);
        assert_eq!(p.config.ansi_color, Color::no_color());
    }
}

#[test]
fn second_and_first_type_handlers_alone() {
    let mut p = started();
    p.receive_ttype_0("CMUD 3.34".to_string());
    assert_eq!((p.config.client_name.as_str(), p.config.client_version.as_str()), ("CMUD", "3.34"));
    assert_eq!(p.config.ansi_color, Color::xterm256());
    let mut p = started();
    p.config.ansi_color = Color::true_color();
    p.handshakes_left.ttype.insert(1);
    p.receive_ttype_1("XTERM");
    assert_eq!(p.config.ansi_color, Color::true_color());
    assert!(!p.handshakes_left.ttype.contains(&1));
}

#[test]
fn option_effects_on_their_own() {
    let mut p = started();
    let mut out = Vec::new();
    p.enable_remote(NAWS, &mut out);
    assert!(p.config.naws && out.is_empty());
    p.receive_naws(&vec![0, 100, 0, 50]);
    p.disable_remote(NAWS);
    assert!(!p.config.naws);
    assert_eq!((p.config.width, p.config.height), (78, 24));
    p.enable_remote(MTTS, &mut out);
    assert_eq!(out.len(), 1);
    assert!(p.handshakes_left.ttype.contains(&0));
    p.disable_remote(MTTS);
    assert!(p.handshakes_left.ttype.is_empty());
    let mut out = Vec::new();
    p.request_ttype(&mut out);
    match &out[..] {
        [TelnetEvent::SubNegotiate(o, d)] => assert_eq!((*o, d.clone()), (MTTS, vec![1])),
        _ => panic!("expected a terminal type request"),
    }
}

#[test]
fn sga_on_and_off_restores_the_capabilities() {
    let mut p = started();
    let before = format!("{:?}", p.config);
    let mut out = Vec::new();
    p.enable_local(SGA, &mut out);
    assert!(p.config.sga && out.is_empty());
    p.disable_local(SGA);
    assert_eq!(format!("{:?}", p.config), before);
    p.disable_local(MCCP2);
    assert_eq!(format!("{:?}", p.config), before);
}

#[test]
fn naws_on_report_off_gives_the_default_window() {
    let mut p = started();
    p.process_telnet_event(TelnetEvent::Negotiate(WILL, NAWS));
    p.process_telnet_event(TelnetEvent::SubNegotiate(NAWS, vec![0, 200, 0, 60]));
    assert_eq!((p.config.width, p.config.height), (200, 60));
    p.process_telnet_event(TelnetEvent::Negotiate(WONT, NAWS));
    assert!(!p.config.naws);
    assert_eq!((p.config.width, p.config.height), (78, 24));
}

#[test]
fn option_table_survives_the_session() {
    let mut p = started();
    let keys = |p: &TelnetProtocol| {
        let mut k: Vec<u8> = p.op_state.keys().copied().collect();
        k.sort();
        k
    };
    let at_start = keys(&p);
    let mut expected: Vec<u8> = telnet_options().iter().map(|(c, _)| *c).collect();
    expected.sort();
    assert_eq!(at_start, expected);
    p.process_telnet_event(TelnetEvent::Negotiate(WILL, NAWS));
    p.process_telnet_event(TelnetEvent::Negotiate(DONT, SGA));
    p.process_telnet_event(TelnetEvent::Negotiate(WILL, 77));
    p.check_negotiation(false);
    assert_eq!(keys(&p), expected);
    assert!(p.handshakes_left.local.len() <= 7 && p.handshakes_left.remote.len() <= 3);
}

#[test]
fn gmcp_body_is_the_compact_json_text() {
    let mut p = started();
    let body = serde_json::Value::from(vec![1, 2, 3]);
    let out = p.process_protocol_message(Msg2TelnetProtocol::GMCP("Room.Exits".to_string(), body));
    match &out[..] {
        [TelnetEvent::SubNegotiate(o, d)] => {
            assert_eq!(*o, GMCP);
            assert_eq!(d.clone(), b"Room.Exits [1,2,3]".to_vec());
        },
        _ => panic!("expected GMCP"),
    }
}

#[test]
fn answer_count_stays_at_one() {
    let mut p = started();
    p.receive_negotiate(WILL, MTTS);
    p.receive_ttype(&ttype_answer("TINTIN++"));
    for name in ["XTERM", "MTTS 137", "VT100"] {
        p.handshakes_left.ttype.insert(1);
        p.receive_ttype(&ttype_answer(name));
        assert_eq!(p.ttype_count, 1);
    }
    assert!(!p.config.proxy);
}
