use surrealmud_portal::codec::{decode_event, encode_event};
use surrealmud_portal::events::TelnetEvent;
use surrealmud_portal::scan::{is_space, parse_number, trim_text};
use surrealmud_portal::text::{
    ends_with, ensure_crlf, find_space, gmcp_payload, mssp_payload, remove_cr, split_commands, starts_with, str_eq,
    text_payload,
};

#[test]
fn ensure_crlf_adds_cr_before_bare_lf() {
    assert_eq!(ensure_crlf("a\nb"), "a\r\nb");
    assert_eq!(ensure_crlf("\n"), "\r\n");
    assert_eq!(ensure_crlf("one\ntwo\n"), "one\r\ntwo\r\n");
}

#[test]
fn ensure_crlf_keeps_crlf() {
    assert_eq!(ensure_crlf("a\r\nb"), "a\r\nb");
    assert_eq!(ensure_crlf("\r"), "\r");
    assert_eq!(ensure_crlf("\r\r\n"), "\r\r\n");
}

#[test]
fn ensure_crlf_doubles_iac_char() {
    assert_eq!(ensure_crlf("x\u{ff}y"), "x\u{ff}\u{ff}y");
}

#[test]
fn ensure_crlf_keeps_plain_text() {
    assert_eq!(ensure_crlf("hello world"), "hello world");
    assert_eq!(ensure_crlf(""), "");
    assert_eq!(ensure_crlf("ünïcode"), "ünïcode");
}

#[test]
fn every_line_feed_follows_a_carriage_return() {
    let out = ensure_crlf("a\n\nb\r\nc\n\r\n");
    let chars: Vec<char> = out.chars().collect();
    for i in 0..chars.len() {
        if chars[i] == '\n' {
            assert!(i > 0 && chars[i - 1] == '\r');
        }
    }
}

#[test]
fn string_tests_by_characters() {
    assert!(starts_with("XTERM-256COLOR", "XTERM"));
    assert!(!starts_with("XTER", "XTERM"));
    assert!(ends_with("XTERM-256COLOR", "-256COLOR"));
    assert!(!ends_with("256COLOR", "-256COLOR"));
    assert!(str_eq("MUDLET", "MUDLET"));
    assert!(!str_eq("MUDLET", "MUDLE"));
    assert_eq!(find_space("MUDLET 4.10"), 6);
    assert_eq!(find_space("MUDLET"), 6);
    assert_eq!(find_space(" x"), 0);
    assert_eq!(remove_cr("a\rb\r\r"), "ab");
}

#[test]
fn split_commands_takes_complete_lines() {
    let (commands, rest) = split_commands(&b"look\r\nsay hi\npart".to_vec());
    assert_eq!(commands, vec!["look".to_string(), "say hi".to_string()]);
    assert_eq!(rest, b"part".to_vec());
}

#[test]
fn split_commands_drops_lines_that_are_not_utf8() {
    let (commands, rest) = split_commands(&vec![0xff, 0xfe, b'\n', b'o', b'k', b'\n']);
    assert_eq!(commands, vec!["ok".to_string()]);
    assert!(rest.is_empty());
}

#[test]
fn split_commands_keeps_empty_lines() {
    let (commands, rest) = split_commands(&b"\n\r\n".to_vec());
    assert_eq!(commands, vec![String::new(), String::new()]);
    assert!(rest.is_empty());
}

#[test]
fn joined_lines_give_back_the_buffer() {
    let buf = b"north\nsouth\r\neast".to_vec();
    let (commands, rest) = split_commands(&buf);
    let mut joined: Vec<u8> = Vec::new();
    for c in &commands {
        joined.extend_from_slice(c.as_bytes());
        joined.push(b'\n');
    }
    joined.extend_from_slice(&rest);
    assert_eq!(joined, b"north\nsouth\neast".to_vec());
    assert!(!rest.contains(&b'\n'));
}

#[test]
fn payloads_are_utf8_text() {
    assert_eq!(gmcp_payload("Core.Hello", "{}"), b"Core.Hello {}".to_vec());
    assert_eq!(text_payload("hi\n"), b"hi\r\n".to_vec());
    let entries = vec![
        ("NAME".to_string(), "SurrealMUD".to_string()),
        ("PLAYERS".to_string(), "3".to_string()),
    ];
    assert_eq!(mssp_payload(&entries), b"NAME SurrealMUD\r\nPLAYERS 3".to_vec());
    assert_eq!(mssp_payload(&vec![]), Vec::<u8>::new());
}

#[test]
fn encode_escapes_iac() {
    assert_eq!(encode_event(&TelnetEvent::Data(vec![1, 255, 2])), vec![1, 255, 255, 2]);
    assert_eq!(encode_event(&TelnetEvent::Negotiate(251, 3)), vec![255, 251, 3]);
    assert_eq!(encode_event(&TelnetEvent::Command(241)), vec![255, 241]);
    assert_eq!(
        encode_event(&TelnetEvent::SubNegotiate(24, vec![1, 255])),
        vec![255, 250, 24, 1, 255, 255, 255, 240]
    );
}

#[test]
fn decode_reads_each_kind_of_event() {
    match decode_event(b"abc\xff\xf1") {
        Some((TelnetEvent::Data(d), n)) => {
            assert_eq!(d, b"abc".to_vec());
            assert_eq!(n, 3);
        },
        _ => panic!("expected data"),
    }
    match decode_event(&[255, 253, 31, 0]) {
        Some((TelnetEvent::Negotiate(c, o), n)) => assert_eq!((c, o, n), (253, 31, 3)),
        _ => panic!("expected a negotiation"),
    }
    match decode_event(&[255, 241]) {
        Some((TelnetEvent::Command(c), n)) => assert_eq!((c, n), (241, 2)),
        _ => panic!("expected a command"),
    }
    match decode_event(&[255, 255, 7]) {
        Some((TelnetEvent::Data(d), n)) => assert_eq!((d, n), (vec![255], 2)),
        _ => panic!("expected an escaped IAC"),
    }
    match decode_event(&[255, 250, 31, 0, 80, 255, 255, 255, 240, 9]) {
        Some((TelnetEvent::SubNegotiate(o, d), n)) => assert_eq!((o, d, n), (31, vec![0, 80, 255], 9)),
        _ => panic!("expected a subnegotiation"),
    }
}

#[test]
fn decode_waits_for_whole_events() {
    assert!(decode_event(&[]).is_none());
    assert!(decode_event(&[255]).is_none());
    assert!(decode_event(&[255, 251]).is_none());
    assert!(decode_event(&[255, 250, 24, 0, 65]).is_none());
    assert!(decode_event(&[255, 250, 24, 0, 65, 255]).is_none());
}

#[test]
fn decode_gives_back_encoded_events() {
    let events = vec![
        TelnetEvent::Negotiate(254, 86),
        TelnetEvent::SubNegotiate(201, b"Core.Hello {\"a\":1}".to_vec()),
        TelnetEvent::SubNegotiate(70, vec![255, 1, 255]),
        TelnetEvent::Data(b"plain".to_vec()),
        TelnetEvent::Command(241),
    ];
    for e in events {
        let bytes = encode_event(&e);
        let (back, n) = decode_event(&bytes).expect("a whole event");
        assert_eq!(n, bytes.len());
        assert_eq!(format!("{:?}", back), format!("{:?}", e));
    }
}

#[test]
fn trim_text_matches_str_trim() {
    for s in ["", "   ", " mudlet 4.17 ", "\t\r\nxterm\u{3000}", "a b", "\u{85}x\u{a0}", "\u{200b}z"] {
        assert_eq!(trim_text(s), s.trim());
    }
}

#[test]
fn parse_number_matches_str_parse() {
    for s in ["", "+", "0", "+42", "399", "-3", "12a", "007", "18446744073709551615", "18446744073709551616", "99999999999999999999999", " 5"] {
        assert_eq!(parse_number(s), s.parse::<usize>().ok(), "{}", s);
    }
}

#[test]
fn white_space_is_unicode_white_space() {
    for c in ['\t', '\n', '\u{b}', '\u{c}', '\r', ' ', '\u{85}', '\u{a0}', '\u{1680}', '\u{2000}', '\u{200a}', '\u{2028}', '\u{2029}', '\u{202f}', '\u{205f}', '\u{3000}', 'a', '\u{200b}', '\u{feff}', '\u{180e}'] {
        assert_eq!(is_space(c), c.is_whitespace(), "{:?}", c);
    }
}
