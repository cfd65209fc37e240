//! What the portal has learned of a client's terminal and protocols.

use vstd::prelude::*;

verus! {

/// How many colours the client's terminal shows, as a rank from fewest to
/// most: 0 for none, 1 for the standard ANSI colours, 2 for the xterm
/// 256-colour palette, 3 for true colour. No other rank can be built.
#[derive(Debug, Clone, Copy, PartialEq, Eq, Structural)]
pub struct Color {
    rank: u8,
}

/// No colour.
pub const NO_COLOR: u8 = 0;
/// The standard ANSI colours.
pub const STANDARD_COLOR: u8 = 1;
/// The xterm 256-colour palette.
pub const XTERM256_COLOR: u8 = 2;
/// True colour.
pub const TRUE_COLOR: u8 = 3;

impl Color {
    /// A rank is one of the four.
    #[verifier::type_invariant]
    spec fn valid(self) -> bool {
        self.rank <= TRUE_COLOR
    }

    /// The rank of the colour support.
    pub closed spec fn level(self) -> u8 {
        self.rank
    }

    /// The colour support of the given rank.
    pub closed spec fn of_level(rank: u8) -> Color {
        Color { rank: rank }
    }

    /// The colour support of a rank has that rank.
    pub broadcast proof fn lemma_of_level(rank: u8)
        ensures
            #[trigger] Color::of_level(rank).level() == rank,
    {
    }

    /// The rank of the colour support, one of the four.
    pub fn rank(&self) -> (r: u8)
        ensures
            r == self.level(),
            r <= TRUE_COLOR,
    {
        proof {
            use_type_invariant(self);
        }
        self.rank
    }

    /// No colour.
    pub fn no_color() -> (c: Color)
        ensures
            c == Color::of_level(NO_COLOR),
            c.level() == NO_COLOR,
    {
        Color { rank: NO_COLOR }
    }

    /// The standard ANSI colours.
    pub fn standard() -> (c: Color)
        ensures
            c == Color::of_level(STANDARD_COLOR),
            c.level() == STANDARD_COLOR,
    {
        Color { rank: STANDARD_COLOR }
    }

    /// The xterm 256-colour palette.
    pub fn xterm256() -> (c: Color)
        ensures
            c == Color::of_level(XTERM256_COLOR),
            c.level() == XTERM256_COLOR,
    {
        Color { rank: XTERM256_COLOR }
    }

    /// True colour.
    pub fn true_color() -> (c: Color)
        ensures
            c == Color::of_level(TRUE_COLOR),
            c.level() == TRUE_COLOR,
    {
        Color { rank: TRUE_COLOR }
    }
}

/// The capabilities of one client connection.
#[derive(Debug, Clone)]
pub struct ProtocolCapabilities {
    pub protocol: &'static str,
    pub encryption: bool,
    pub client_name: String,
    pub client_version: String,
    pub host_address: String,
    pub host_port: u16,
    pub host_names: Vec<String>,
    pub encoding: String,
    pub utf8: bool,
    pub ansi_color: Color,
    pub width: u16,
    pub height: u16,
    pub gmcp: bool,
    pub msdp: bool,
    pub mssp: bool,
    pub mccp2: bool,
    pub mccp3: bool,
    pub ttype: bool,
    pub naws: bool,
    pub sga: bool,
    pub linemode: bool,
    pub force_endline: bool,
    pub oob: bool,
    pub tls: bool,
    pub screen_reader: bool,
    pub mouse_tracking: bool,
    pub vt100: bool,
    pub osc_color_palette: bool,
    pub proxy: bool,
    pub mnes: bool,
}

/// The window width assumed until the client reports its own.
pub const DEFAULT_WIDTH: u16 = 78;
/// The window height assumed until the client reports its own.
pub const DEFAULT_HEIGHT: u16 = 24;

/// What is known of a client before it has told anything: a telnet client
/// of unknown name, version and address, with a 78 by 24 window, no colour,
/// and no protocol enabled.
pub open spec fn is_default_capabilities(c: ProtocolCapabilities) -> bool {
    &&& c.host_address@ == "UNKNOWN"@
    &&& c.host_port == 0
    &&& c.host_names@ == Seq::<String>::empty()
    &&& !c.tls
    &&& is_unknown_client(c)
}

/// Nothing is known of the client but, possibly, where it connects from:
/// all is as in `is_default_capabilities` save the host fields and TLS.
pub open spec fn is_unknown_client(c: ProtocolCapabilities) -> bool {
    &&& c.protocol@ == "telnet"@
    &&& !c.encryption
    &&& c.client_name@ == "UNKNOWN"@
    &&& c.client_version@ == "UNKNOWN"@
    &&& c.encoding@ == Seq::<char>::empty()
    &&& !c.utf8
    &&& c.ansi_color.level() == NO_COLOR
    &&& c.width == DEFAULT_WIDTH
    &&& c.height == DEFAULT_HEIGHT
    &&& !c.gmcp
    &&& !c.msdp
    &&& !c.mssp
    &&& !c.mccp2
    &&& !c.mccp3
    &&& !c.ttype
    &&& !c.naws
    &&& !c.sga
    &&& !c.linemode
    &&& !c.force_endline
    &&& !c.oob
    &&& !c.screen_reader
    &&& !c.mouse_tracking
    &&& !c.vt100
    &&& !c.osc_color_palette
    &&& !c.proxy
    &&& !c.mnes
}

impl Default for ProtocolCapabilities {
    fn default() -> (c: Self)
        ensures
            is_default_capabilities(c),
    {
        let c = ProtocolCapabilities {
            protocol: "telnet",
            encryption: false,
            client_name: "UNKNOWN".to_string(),
            client_version: "UNKNOWN".to_string(),
            host_address: "UNKNOWN".to_string(),
            host_port: 0,
            host_names: Vec::new(),
            encoding: String::new(),
            utf8: false,
            ansi_color: Color::no_color(),
            width: DEFAULT_WIDTH,
            height: DEFAULT_HEIGHT,
            gmcp: false,
            msdp: false,
            mssp: false,
            mccp2: false,
            mccp3: false,
            ttype: false,
            naws: false,
            sga: false,
            linemode: false,
            force_endline: false,
            oob: false,
            tls: false,
            screen_reader: false,
            mouse_tracking: false,
            vt100: false,
            osc_color_palette: false,
            proxy: false,
            mnes: false,
        };
        c
    }
}

/// Turning Go Ahead suppression on and off again gives back capabilities in
/// which it was off.
pub proof fn lemma_sga_restored(c: ProtocolCapabilities)
    requires
        !c.sga,
    ensures
        (ProtocolCapabilities { sga: false, ..ProtocolCapabilities { sga: true, ..c } }) == c,
{
}

impl ProtocolCapabilities {
    /// Records what the client's terminal supports, as MTTS reports it.
    pub fn set_terminal(
        &mut self,
        color: Color,
        vt100: bool,
        utf8: bool,
        mouse_tracking: bool,
        osc_color_palette: bool,
        screen_reader: bool,
        proxy: bool,
        mnes: bool,
    )
        ensures
            *final(self) == (ProtocolCapabilities {
                ansi_color: color,
                vt100: vt100,
                utf8: utf8,
                mouse_tracking: mouse_tracking,
                osc_color_palette: osc_color_palette,
                screen_reader: screen_reader,
                proxy: proxy,
                mnes: mnes,
                ..*old(self)
            }),
    {
        self.ansi_color = color;
        self.vt100 = vt100;
        self.utf8 = utf8;
        self.mouse_tracking = mouse_tracking;
        self.osc_color_palette = osc_color_palette;
        self.screen_reader = screen_reader;
        self.proxy = proxy;
        self.mnes = mnes;
    }

    /// Records that the client no longer reports its window size: the
    /// window is assumed to be 78 by 24 again.
    pub fn forget_window(&mut self)
        ensures
            *final(self) == (ProtocolCapabilities {
                naws: false,
                width: DEFAULT_WIDTH,
                height: DEFAULT_HEIGHT,
                ..*old(self)
            }),
    {
        self.naws = false;
        self.width = DEFAULT_WIDTH;
        self.height = DEFAULT_HEIGHT;
    }

    /// Records whether the client reports its window size.
    pub fn set_naws(&mut self, value: bool)
        ensures
            *final(self) == (ProtocolCapabilities { naws: value, ..*old(self) }),
    {
        self.naws = value;
    }

    /// Records whether the client is in line mode.
    pub fn set_linemode(&mut self, value: bool)
        ensures
            *final(self) == (ProtocolCapabilities { linemode: value, ..*old(self) }),
    {
        self.linemode = value;
    }

    /// Records whether Go Ahead is suppressed.
    pub fn set_sga(&mut self, value: bool)
        ensures
            *final(self) == (ProtocolCapabilities { sga: value, ..*old(self) }),
    {
        self.sga = value;
    }

    /// Records whether output compression (MCCP2) is on.
    pub fn set_mccp2(&mut self, value: bool)
        ensures
            *final(self) == (ProtocolCapabilities { mccp2: value, ..*old(self) }),
    {
        self.mccp2 = value;
    }

    /// Records whether input compression (MCCP3) is on.
    pub fn set_mccp3(&mut self, value: bool)
        ensures
            *final(self) == (ProtocolCapabilities { mccp3: value, ..*old(self) }),
    {
        self.mccp3 = value;
    }

    /// Records whether the terminal type option is on.
    pub fn set_ttype(&mut self, value: bool)
        ensures
            *final(self) == (ProtocolCapabilities { ttype: value, ..*old(self) }),
    {
        self.ttype = value;
    }

    /// Records the size of the client's window.
    pub fn set_window(&mut self, width: u16, height: u16)
        ensures
            *final(self) == (ProtocolCapabilities { width: width, height: height, ..*old(self) }),
    {
        self.width = width;
        self.height = height;
    }

    /// Records how many colours the client shows.
    pub fn set_color(&mut self, color: Color)
        ensures
            *final(self) == (ProtocolCapabilities { ansi_color: color, ..*old(self) }),
    {
        self.ansi_color = color;
    }

    /// Records the client's name.
    pub fn set_client_name(&mut self, name: String)
        ensures
            *final(self) == (ProtocolCapabilities { client_name: name, ..*old(self) }),
    {
        self.client_name = name;
    }

    /// Records the client's version.
    pub fn set_client_version(&mut self, version: String)
        ensures
            *final(self) == (ProtocolCapabilities { client_version: version, ..*old(self) }),
    {
        self.client_version = version;
    }
}

} // verus!
