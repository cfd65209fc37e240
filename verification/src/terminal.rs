//! What a client tells of its terminal: its window size (NAWS) and its
//! terminal types (TTYPE, with the MUD Terminal Type Standard).

use crate::capabilities::{Color, ProtocolCapabilities, STANDARD_COLOR, TRUE_COLOR, XTERM256_COLOR};
use crate::outside::{to_uppercase, uppercase, utf8_string};
use crate::scan::{parse_number, parsed_usize, trim_spec, trim_text};
use crate::protocol::{sent, ttype_request, ProtocolView, TelnetProtocol};
use crate::events::{EventView, TelnetEvent};
use crate::text::{ends_with, find_space, has_prefix, has_suffix, space_index, starts_with, str_eq};
use vstd::prelude::*;
use vstd::string::StrSliceExecFns;
use vstd::utf8::{decode_utf8, valid_utf8};

verus! {

broadcast use vstd::std_specs::hash::group_hash_axioms, Color::lemma_of_level;

/// The clients known to show the xterm 256-colour palette.
pub open spec fn known_client(name: Seq<char>) -> bool {
    ||| name == "ATLANTIS"@
    ||| name == "CMUD"@
    ||| name == "KILDCLIENT"@
    ||| name == "MUDLET"@
    ||| name == "MUSHCLIENT"@
    ||| name == "PUTTY"@
    ||| name == "BEIP"@
    ||| name == "POTATO"@
    ||| name == "TINYFUGUE"@
}

/// A terminal type that promises the xterm 256-colour palette.
pub open spec fn xterm_like(s: Seq<char>) -> bool {
    has_prefix(s, "XTERM"@) || has_suffix(s, "-256COLOR"@)
}

/// The colour support that a terminal type shows: the xterm palette for a
/// known client, or for an xterm-like type unless true colour is known.
pub open spec fn name_color(c: Color, name: Seq<char>) -> Color {
    if known_client(name) || (xterm_like(name) && c.level() != TRUE_COLOR) {
        Color::of_level(XTERM256_COLOR)
    } else {
        c
    }
}

/// The colour support that a second terminal type shows.
pub open spec fn type_color(c: Color, name: Seq<char>) -> Color {
    if xterm_like(name) && c.level() != TRUE_COLOR {
        Color::of_level(XTERM256_COLOR)
    } else {
        c
    }
}

/// At least the given rank of colour support.
pub open spec fn raise_color(c: Color, rank: u8) -> Color {
    if c.level() < rank {
        Color::of_level(rank)
    } else {
        c
    }
}

/// Every feature known in `c` is still known in `d`.
pub open spec fn caps_kept(c: ProtocolCapabilities, d: ProtocolCapabilities) -> bool {
    &&& c.vt100 ==> d.vt100
    &&& c.utf8 ==> d.utf8
    &&& c.mouse_tracking ==> d.mouse_tracking
    &&& c.osc_color_palette ==> d.osc_color_palette
    &&& c.screen_reader ==> d.screen_reader
    &&& c.proxy ==> d.proxy
    &&& c.mnes ==> d.mnes
}

/// The capabilities that an MTTS bit field adds: 1 ANSI colour, 2 VT100,
/// 4 UTF-8, 8 256 colours, 16 mouse tracking, 32 colour palette, 64 screen
/// reader, 128 proxy, 256 true colour, 512 MNES. A bit that is not set takes
/// nothing away.
pub open spec fn mtts_caps(c: ProtocolCapabilities, mtts: usize) -> ProtocolCapabilities {
    let color1 = if mtts & 1 == 1 { raise_color(c.ansi_color, STANDARD_COLOR) } else { c.ansi_color };
    let color2 = if mtts & 8 == 8 { raise_color(color1, XTERM256_COLOR) } else { color1 };
    let color3 = if mtts & 256 == 256 { raise_color(color2, TRUE_COLOR) } else { color2 };
    ProtocolCapabilities {
        ansi_color: color3,
        vt100: c.vt100 || mtts & 2 == 2,
        utf8: c.utf8 || mtts & 4 == 4,
        mouse_tracking: c.mouse_tracking || mtts & 16 == 16,
        osc_color_palette: c.osc_color_palette || mtts & 32 == 32,
        screen_reader: c.screen_reader || mtts & 64 == 64,
        proxy: c.proxy || mtts & 128 == 128,
        mnes: c.mnes || mtts & 512 == 512,
        ..c
    }
}

/// The MTTS bit field that a third terminal type carries: the number after
/// `MTTS `, or 0 where the type is not `MTTS ` followed by a number that
/// fits in a `usize`.
pub open spec fn mtts_bits(t: Seq<char>) -> usize {
    if has_prefix(t, "MTTS "@) {
        match parsed_usize(t.skip(5)) {
            Some(m) => m,
            None => 0,
        }
    } else {
        0
    }
}

/// The capabilities after a third terminal type: a positive MTTS bit field
/// adds what its bits say; anything else adds nothing.
pub open spec fn third_type_caps(c: ProtocolCapabilities, t: Seq<char>) -> ProtocolCapabilities {
    if mtts_bits(t) == 0 {
        c
    } else {
        mtts_caps(c, mtts_bits(t))
    }
}

/// The third terminal type handshakes left after the type `t`: a positive
/// MTTS bit field settles the third request; anything else leaves them.
pub open spec fn third_type_handshakes(hs: Set<u8>, t: Seq<char>) -> Set<u8> {
    if mtts_bits(t) == 0 {
        hs
    } else {
        hs.remove(2)
    }
}

/// `d` is `c` after the client's first terminal type `t`: the name before
/// the first space, the version after it where there is one, and the
/// colour support that the name shows.
pub open spec fn first_type_caps(c: ProtocolCapabilities, t: Seq<char>, d: ProtocolCapabilities) -> bool {
    let i = space_index(t);
    let name = t.take(i);
    &&& d.client_name@ == name
    &&& i < t.len() ==> d.client_version@ == t.skip(i + 1)
    &&& i >= t.len() ==> d.client_version == c.client_version
    &&& d.ansi_color == name_color(c.ansi_color, name)
    &&& d == (ProtocolCapabilities {
        client_name: d.client_name,
        client_version: d.client_version,
        ansi_color: d.ansi_color,
        ..c
    })
}

/// The terminal type that a TTYPE IS answer carries: the text after its
/// first byte, trimmed and in upper case.
pub open spec fn ttype_text(data: Seq<u8>) -> Seq<char> {
    uppercase(trim_spec(decode_utf8(data.drop_first())))
}

/// An answer that is not heeded: too short, unasked for, not an IS (0), or
/// not UTF-8.
pub open spec fn ttype_ignored(p: ProtocolView, data: Seq<u8>) -> bool {
    data.len() < 2 || p.hs_ttype.is_empty() || data[0] != 0 || !valid_utf8(data.drop_first())
}

/// A heeded answer that finds more than two types counted: the exchange
/// never gets there, and the portal does not handle it.
pub open spec fn ttype_out_of_bounds(p: ProtocolView, data: Seq<u8>) -> bool {
    p.ttype_count > 2 && !ttype_ignored(p, data)
}

/// The session `q` and the events `ev` after the terminal type answer
/// `data` reaches session `p`.
///
/// The first answer names the client (and maybe its version), is kept as
/// the last type, and is followed by a request for the next type. A later
/// answer equal to the last one ends the exchange: the client has no more
/// types. Otherwise the second answer may show 256 colours and becomes the
/// last type; the third may carry the MTTS bits, and ends the exchange.
///
/// The count of answers goes from 0 to 1 with the first answer and no
/// further: no handler moves it on, so through these handlers a later answer
/// is always taken as the second, and the third-answer branch is reached
/// only from a session whose `ttype_count` was set to 2 by its owner.
pub open spec fn ttype_spec(p: ProtocolView, data: Seq<u8>, q: ProtocolView, ev: Seq<EventView>) -> bool {
    if ttype_ignored(p, data) {
        q == p && ev == Seq::<EventView>::empty()
    } else {
        let t = ttype_text(data);
        if p.ttype_count == 0 {
            &&& first_type_caps(p.config, t, q.config)
            &&& q.ttype_last matches Some(l) && l@ == t
            &&& q == (ProtocolView {
                config: q.config,
                ttype_last: q.ttype_last,
                ttype_count: 1,
                hs_ttype: p.hs_ttype.remove(0),
                ..p
            })
            &&& ev == seq![ttype_request()]
        } else {
            &&& ev == Seq::<EventView>::empty()
            &&& match p.ttype_last {
                None => q == p,
                Some(last) => if last@ == t {
                    q == (ProtocolView { hs_ttype: Set::empty(), ttype_last: None, ..p })
                } else if p.ttype_count == 1 {
                    &&& q.ttype_last matches Some(l) && l@ == t
                    &&& q == (ProtocolView {
                        config: ProtocolCapabilities { ansi_color: type_color(p.config.ansi_color, t), ..p.config },
                        hs_ttype: p.hs_ttype.remove(1),
                        ttype_last: q.ttype_last,
                        ..p
                    })
                } else {
                    q == (ProtocolView {
                        config: third_type_caps(p.config, t),
                        hs_ttype: Set::empty(),
                        ttype_last: None,
                        ..p
                    })
                },
            }
        }
    }
}

/// The client's window after a NAWS report of at least four bytes: width
/// and height, each two bytes, most significant first. A shorter report
/// changes nothing.
pub open spec fn naws_spec(p: ProtocolView, data: Seq<u8>) -> ProtocolView {
    if data.len() >= 4 {
        ProtocolView {
            config: ProtocolCapabilities {
                width: (data[0] as u16 * 256 + data[1] as u16) as u16,
                height: (data[2] as u16 * 256 + data[3] as u16) as u16,
                ..p.config
            },
            ..p
        }
    } else {
        p
    }
}

/// Whether `name` is one of the known clients.
fn is_known_client(name: &str) -> (b: bool)
    ensures
        b == known_client(name@),
{
    str_eq(name, "ATLANTIS") || str_eq(name, "CMUD") || str_eq(name, "KILDCLIENT") || str_eq(name, "MUDLET")
        || str_eq(name, "MUSHCLIENT") || str_eq(name, "PUTTY") || str_eq(name, "BEIP") || str_eq(name, "POTATO")
        || str_eq(name, "TINYFUGUE")
}

/// Whether the terminal type promises the xterm 256-colour palette.
fn is_xterm_like(name: &str) -> (b: bool)
    ensures
        b == xterm_like(name@),
{
    starts_with(name, "XTERM") || ends_with(name, "-256COLOR")
}

/// The colour support that a first terminal type shows.
fn first_type_color(c: Color, name: &str) -> (r: Color)
    ensures
        r == name_color(c, name@),
{
    if is_known_client(name) || (is_xterm_like(name) && c.rank() != TRUE_COLOR) {
        Color::xterm256()
    } else {
        c
    }
}

/// Splits a first terminal type at its first space: the name before it, and
/// the version after it where there is one.
fn split_type(t: String) -> (res: (String, Option<String>))
    ensures
        res.0@ == t@.take(space_index(t@)),
        space_index(t@) < t@.len() ==> (res.1 matches Some(v) && v@ == t@.skip(space_index(t@) + 1)),
        space_index(t@) >= t@.len() ==> res.1 is None,
{
    let n = t.as_str().unicode_len();
    let i = find_space(t.as_str());
    proof {
        crate::text::lemma_space_index(t@);
    }
    if i < n {
        let head = t.as_str().substring_char(0, i);
        let tail = t.as_str().substring_char(i + 1, n);
        (head.to_string(), Some(tail.to_string()))
    } else {
        proof {
            assert(t@.take(i as int) =~= t@);
        }
        (t, None)
    }
}

/// Reads a terminal type answer: the text after its first byte, trimmed
/// and in upper case, where it is UTF-8.
fn ttype_answer_text(data: &Vec<u8>) -> (res: Option<String>)
    requires
        data@.len() >= 1,
    ensures
        res is Some <==> valid_utf8(data@.drop_first()),
        res matches Some(t) ==> t@ == ttype_text(data@),
{
    let mut rest: Vec<u8> = Vec::new();
    let n = data.len();
    let mut i: usize = 1;
    while i < n
        invariant
            n == data@.len(),
            1 <= i <= n,
            rest@ == data@.subrange(1, i as int),
        decreases n - i,
    {
        rest.push(data[i]);
        i = i + 1;
        assert(rest@ =~= data@.subrange(1, i as int));
    }
    assert(rest@ =~= data@.drop_first());
    match utf8_string(rest) {
        Some(text) => Some(to_uppercase(trim_text(text.as_str()))),
        None => None,
    }
}

impl TelnetProtocol {
    /// Records the client's first terminal type: its name and version, and
    /// what colours the name shows.
    pub fn receive_ttype_0(&mut self, data: String)
        ensures
            first_type_caps(old(self).config, data@, final(self).config),
            final(self)@ == (ProtocolView { config: final(self).config, ..old(self)@ }),
            final(self).same_clock(&*old(self)),
    {
        let ghost before = self@;
        let ghost c0 = self.config;
        let ghost t = data@;
        let (name, version) = split_type(data);
        let color = first_type_color(self.config.ansi_color, name.as_str());
        match version {
            Some(v) => self.config.set_client_version(v),
            None => {},
        }
        self.config.set_client_name(name);
        self.config.set_color(color);
        assert(self@ =~= ProtocolView { config: self.config, ..before });
    }

    /// Records the client's second terminal type: whether it shows 256
    /// colours.
    pub fn receive_ttype_1(&mut self, data: &str)
        ensures
            final(self)@ == (ProtocolView {
                config: ProtocolCapabilities { ansi_color: type_color(old(self).config.ansi_color, data@), ..old(self).config },
                hs_ttype: old(self)@.hs_ttype.remove(1),
                ..old(self)@
            }),
            final(self).same_clock(&*old(self)),
    {
        let ghost before = self@;
        let color = if is_xterm_like(data) && self.config.ansi_color.rank() != TRUE_COLOR {
            Color::xterm256()
        } else {
            self.config.ansi_color
        };
        self.config.set_color(color);
        let ghost mid = self@;
        assert(mid =~= ProtocolView {
            config: ProtocolCapabilities { ansi_color: type_color(before.config.ansi_color, data@), ..before.config },
            ..before
        });
        self.handshakes_left.ttype.remove(&1u8);
        assert(self@ =~= ProtocolView { hs_ttype: before.hs_ttype.remove(1), ..mid });
    }

    /// Records what the MTTS bits of the client's third terminal type say.
    /// The bits only add: no colour support or feature already known is
    /// taken away.
    pub fn receive_ttype_2(&mut self, data: &str)
        ensures
            final(self).config == third_type_caps(old(self).config, data@),
            final(self)@.hs_ttype == third_type_handshakes(old(self)@.hs_ttype, data@),
            final(self)@ == (ProtocolView { config: final(self).config, hs_ttype: final(self)@.hs_ttype, ..old(self)@ }),
            final(self).same_clock(&*old(self)),
            final(self).config.ansi_color.level() >= old(self).config.ansi_color.level(),
            caps_kept(old(self).config, final(self).config),
    {
        let ghost before = self@;
        proof {
            crate::laws::lemma_mtts_only_adds(self.config, data@);
        }
        if !starts_with(data, "MTTS ") {
            assert(self@ =~= ProtocolView { config: self.config, hs_ttype: self@.hs_ttype, ..before });
            return;
        }
        proof {
            reveal_strlit("MTTS ");
        }
        let n = data.unicode_len();
        let value = data.substring_char(5, n);
        assert(value@ =~= data@.skip(5));
        let mtts: usize = match parse_number(value) {
            Some(m) => m,
            None => 0,
        };
        if mtts == 0 {
            assert(self@ =~= ProtocolView { config: self.config, hs_ttype: self@.hs_ttype, ..before });
            return;
        }
        self.apply_mtts(mtts);
        self.handshakes_left.ttype.remove(&2u8);
        assert(self@ =~= ProtocolView { config: self.config, hs_ttype: self@.hs_ttype, ..before });
    }

    /// Adds to the capabilities what the MTTS bits say.
    fn apply_mtts(&mut self, mtts: usize)
        ensures
            final(self).config == mtts_caps(old(self).config, mtts),
            final(self)@ == (ProtocolView { config: final(self).config, ..old(self)@ }),
            final(self).same_clock(&*old(self)),
    {
        let ghost before = self@;
        let c = self.config.ansi_color;
        let c1 = if mtts & 1 == 1 && c.rank() < STANDARD_COLOR { Color::standard() } else { c };
        let c2 = if mtts & 8 == 8 && c1.rank() < XTERM256_COLOR { Color::xterm256() } else { c1 };
        let c3 = if mtts & 256 == 256 && c2.rank() < TRUE_COLOR { Color::true_color() } else { c2 };
        let old_caps = &self.config;
        let vt100 = old_caps.vt100 || mtts & 2 == 2;
        let utf8 = old_caps.utf8 || mtts & 4 == 4;
        let mouse_tracking = old_caps.mouse_tracking || mtts & 16 == 16;
        let osc_color_palette = old_caps.osc_color_palette || mtts & 32 == 32;
        let screen_reader = old_caps.screen_reader || mtts & 64 == 64;
        let proxy = old_caps.proxy || mtts & 128 == 128;
        let mnes = old_caps.mnes || mtts & 512 == 512;
        self.config.set_terminal(c3, vt100, utf8, mouse_tracking, osc_color_palette, screen_reader, proxy, mnes);
        assert(self.config == mtts_caps(before.config, mtts));
        assert(self@ =~= ProtocolView { config: self.config, ..before });
    }

    /// Handles a terminal type answer (TTYPE IS) from the client.
    pub fn receive_ttype(&mut self, data: &Vec<u8>) -> (out: Vec<TelnetEvent>)
        requires
            !ttype_out_of_bounds(old(self)@, data@),
        ensures
            ttype_spec(old(self)@, data@, final(self)@, sent(out@)),
            final(self).same_clock(&*old(self)),
    {
        let out: Vec<TelnetEvent> = Vec::new();
        assert(sent(out@) =~= Seq::<EventView>::empty());
        if data.len() < 2 {
            return out;
        }
        if self.handshakes_left.ttype.is_empty() {
            return out;
        }
        if data[0] != 0 {
            return out;
        }
        match ttype_answer_text(data) {
            Some(upper) => {
                if self.ttype_count == 0 {
                    self.first_ttype_answer(upper)
                } else {
                    self.later_ttype_answer(upper);
                    out
                }
            },
            None => out,
        }
    }

    /// Handles the first terminal type answer, already read.
    pub fn first_ttype_answer(&mut self, upper: String) -> (out: Vec<TelnetEvent>)
        ensures
            first_type_caps(old(self).config, upper@, final(self).config),
            final(self).ttype_last matches Some(l) && l@ == upper@,
            final(self)@ == (ProtocolView {
                config: final(self).config,
                ttype_last: final(self)@.ttype_last,
                ttype_count: 1,
                hs_ttype: old(self)@.hs_ttype.remove(0),
                ..old(self)@
            }),
            sent(out@) == seq![ttype_request()],
            final(self).same_clock(&*old(self)),
    {
        let ghost p = self@;
        let mut out: Vec<TelnetEvent> = Vec::new();
        self.ttype_last = Some(upper.clone());
        let ghost last = self.ttype_last;
        self.receive_ttype_0(upper);
        self.ttype_count = 1;
        self.handshakes_left.ttype.remove(&0u8);
        self.request_ttype(&mut out);
        assert(sent(out@) =~= seq![ttype_request()]);
        assert(self@ =~= ProtocolView {
            config: self.config,
            ttype_last: last,
            ttype_count: 1,
            hs_ttype: p.hs_ttype.remove(0),
            ..p
        });
        out
    }

    /// Handles a second or later terminal type answer, already read.
    pub fn later_ttype_answer(&mut self, upper: String)
        requires
            1 <= old(self).ttype_count <= 2,
        ensures
            match old(self)@.ttype_last {
                None => final(self)@ == old(self)@,
                Some(last) => if last@ == upper@ {
                    final(self)@ == (ProtocolView { hs_ttype: Set::empty(), ttype_last: None, ..old(self)@ })
                } else if old(self).ttype_count == 1 {
                    &&& final(self)@.ttype_last matches Some(l) && l@ == upper@
                    &&& final(self)@ == (ProtocolView {
                        config: ProtocolCapabilities { ansi_color: type_color(old(self).config.ansi_color, upper@), ..old(self).config },
                        hs_ttype: old(self)@.hs_ttype.remove(1),
                        ttype_last: final(self)@.ttype_last,
                        ..old(self)@
                    })
                } else {
                    final(self)@ == (ProtocolView {
                        config: third_type_caps(old(self).config, upper@),
                        hs_ttype: Set::empty(),
                        ttype_last: None,
                        ..old(self)@
                    })
                },
            },
            final(self).same_clock(&*old(self)),
    {
        let ghost p = self@;
        let ghost t = upper@;
        let same = match &self.ttype_last {
            Some(last) => Some(str_eq(last.as_str(), upper.as_str())),
            None => None,
        };
        match same {
            None => {},
            Some(true) => {
                self.handshakes_left.ttype.clear();
                self.ttype_last = None;
                assert(self@ =~= ProtocolView { hs_ttype: Set::empty(), ttype_last: None, ..p });
            },
            Some(false) => {
                if self.ttype_count == 1 {
                    self.receive_ttype_1(upper.as_str());
                    self.ttype_last = Some(upper);
                    assert(self@ =~= ProtocolView {
                        config: ProtocolCapabilities { ansi_color: type_color(p.config.ansi_color, t), ..p.config },
                        hs_ttype: p.hs_ttype.remove(1),
                        ttype_last: self.ttype_last,
                        ..p
                    });
                } else {
                    self.receive_ttype_2(upper.as_str());
                    self.ttype_last = None;
                    self.handshakes_left.ttype.clear();
                    assert(self@ =~= ProtocolView {
                        config: third_type_caps(p.config, t),
                        hs_ttype: Set::empty(),
                        ttype_last: None,
                        ..p
                    });
                }
            },
        }
    }

    /// Handles a window size report (NAWS) from the client.
    pub fn receive_naws(&mut self, data: &Vec<u8>)
        ensures
            final(self)@ == naws_spec(old(self)@, data@),
            final(self).same_clock(&*old(self)),
    {
        let ghost p = self@;
        if data.len() >= 4 {
            let width: u16 = data[0] as u16 * 256 + data[1] as u16;
            let height: u16 = data[2] as u16 * 256 + data[3] as u16;
            self.config.set_window(width, height);
            assert(self@ =~= naws_spec(p, data@));
        }
    }
}

} // verus!
