//! Telnet options: which ones the portal supports, the per-option
//! negotiation state, and the handshakes still outstanding.

use crate::codes::{GMCP, LINEMODE, MCCP2, MCCP3, MSDP, MSSP, MTTS, NAWS, SGA, TELOPT_EOR};
use std::collections::HashSet;
use vstd::prelude::*;
use vstd::set_lib::*;

verus! {

broadcast use vstd::std_specs::hash::group_hash_axioms;

/// One side's view of an option.
#[derive(Clone, Copy, Debug, PartialEq, Eq, Structural)]
pub struct TelnetOptionPerspective {
    /// The option is in effect on this side.
    pub enabled: bool,
    /// The portal has asked for the option on this side and waits for the answer.
    pub negotiating: bool,
}

impl Default for TelnetOptionPerspective {
    fn default() -> (p: Self)
        ensures
            p == (TelnetOptionPerspective { enabled: false, negotiating: false }),
    {
        TelnetOptionPerspective { enabled: false, negotiating: false }
    }
}

/// An option as seen from both sides: the client's (`remote`) and the
/// portal's own (`local`).
#[derive(Clone, Copy, Debug, PartialEq, Eq, Structural)]
pub struct TelnetOptionState {
    pub remote: TelnetOptionPerspective,
    pub local: TelnetOptionPerspective,
}

/// An option that is neither in effect nor asked for, on either side.
pub open spec fn idle_option_state() -> TelnetOptionState {
    TelnetOptionState {
        remote: TelnetOptionPerspective { enabled: false, negotiating: false },
        local: TelnetOptionPerspective { enabled: false, negotiating: false },
    }
}

impl Default for TelnetOptionState {
    fn default() -> (s: Self)
        ensures
            s == idle_option_state(),
    {
        TelnetOptionState { remote: TelnetOptionPerspective::default(), local: TelnetOptionPerspective::default() }
    }
}

/// The portal may enable the option on its own side.
pub const ALLOW_LOCAL: u8 = 0b0001;
/// The portal may let the client enable the option on the client's side.
pub const ALLOW_REMOTE: u8 = 0b0010;
/// The portal offers the option itself when a connection opens.
pub const START_LOCAL: u8 = 0b0100;
/// The portal asks the client for the option when a connection opens.
pub const START_REMOTE: u8 = 0b1000;

/// How the portal handles one option: a set of the flags above.
#[derive(Clone, Copy, Debug, PartialEq, Eq, Structural)]
pub struct TelnetOption {
    pub bits: u8,
}

impl TelnetOption {
    /// Every flag of `flags` is set.
    pub open spec fn has(self, flags: u8) -> bool {
        self.bits & flags == flags
    }

    pub fn contains(&self, flags: u8) -> (b: bool)
        ensures
            b == self.has(flags),
    {
        self.bits & flags == flags
    }
}

/// The handling of an option that the portal offers on its own side.
pub open spec fn local_option() -> TelnetOption {
    TelnetOption { bits: ALLOW_LOCAL | START_LOCAL }
}

/// The handling of an option that the portal asks of the client.
pub open spec fn remote_option() -> TelnetOption {
    TelnetOption { bits: ALLOW_REMOTE | START_REMOTE }
}

/// The options that the portal supports, each with its handling, in the
/// order in which a new connection negotiates them.
pub open spec fn option_table() -> Seq<(u8, TelnetOption)> {
    seq![
        (SGA, local_option()),
        (NAWS, remote_option()),
        (MTTS, remote_option()),
        (MSSP, local_option()),
        (MCCP2, local_option()),
        (MCCP3, local_option()),
        (GMCP, local_option()),
        (MSDP, local_option()),
        (LINEMODE, remote_option()),
        (TELOPT_EOR, local_option()),
    ]
}

/// The supported options with their handling.
pub fn telnet_options() -> (table: Vec<(u8, TelnetOption)>)
    ensures
        table@ == option_table(),
{
    let local = TelnetOption { bits: ALLOW_LOCAL | START_LOCAL };
    let remote = TelnetOption { bits: ALLOW_REMOTE | START_REMOTE };
    let table = vec![
        (SGA, local),
        (NAWS, remote),
        (MTTS, remote),
        (MSSP, local),
        (MCCP2, local),
        (MCCP3, local),
        (GMCP, local),
        (MSDP, local),
        (LINEMODE, remote),
        (TELOPT_EOR, local),
    ];
    assert(table@ =~= option_table());
    table
}

/// Every set of bytes is finite and holds at most 256 elements.
pub proof fn lemma_byte_set_bounded(s: Set<u8>)
    ensures
        s.finite(),
        s.len() <= 256,
{
    let ints = set_int_range(0, 256);
    lemma_int_range(0, 256);
    let f = |i: int| i as u8;
    let all = ints.map(f);
    lemma_map_size_bound(ints, all, f);
    assert forall|b: u8| s.contains(b) implies all.contains(b) by {
        assert(ints.contains(b as int));
        assert(f(b as int) == b);
    }
    lemma_len_subset(s, all);
}

/// The handshakes that are still outstanding, by perspective.
#[derive(Default, Debug)]
pub struct TelnetHandshakes {
    pub local: HashSet<u8>,
    pub remote: HashSet<u8>,
    pub ttype: HashSet<u8>,
}

impl TelnetHandshakes {
    /// The number of outstanding handshakes, all perspectives together.
    pub open spec fn spec_len(&self) -> nat {
        self.local@.len() + self.remote@.len() + self.ttype@.len()
    }

    pub fn len(&self) -> (n: usize)
        ensures
            n == self.spec_len(),
    {
        proof {
            lemma_byte_set_bounded(self.local@);
            lemma_byte_set_bounded(self.remote@);
            lemma_byte_set_bounded(self.ttype@);
        }
        self.local.len() + self.remote.len() + self.ttype.len()
    }

    pub fn is_empty(&self) -> (b: bool)
        ensures
            b == (self.spec_len() == 0),
            b == (self.local@.is_empty() && self.remote@.is_empty() && self.ttype@.is_empty()),
    {
        proof {
            lemma_byte_set_bounded(self.local@);
            lemma_byte_set_bounded(self.remote@);
            lemma_byte_set_bounded(self.ttype@);
            if self.spec_len() == 0 {
                assert(self.local@ =~= Set::empty());
                assert(self.remote@ =~= Set::empty());
                assert(self.ttype@ =~= Set::empty());
            }
        }
        self.len() == 0
    }
}

} // verus!
