//! The telnet stream as bytes: how events are written, and how they are read
//! back (RFC 854 framing).

use crate::codes::{DO, DONT, IAC, SB, SE, WILL, WONT};
use crate::events::{EventView, TelnetEvent};
use vstd::prelude::*;

verus! {

/// How one payload byte is written: IAC doubled, any other byte as it is.
pub open spec fn escape_byte(b: u8) -> Seq<u8> {
    if b == IAC {
        seq![IAC, IAC]
    } else {
        seq![b]
    }
}

/// How payload bytes are written: each byte escaped in turn.
pub open spec fn escape(d: Seq<u8>) -> Seq<u8>
    decreases d.len(),
{
    if d.len() == 0 {
        seq![]
    } else {
        escape_byte(d[0]) + escape(d.drop_first())
    }
}

/// Escaping two runs of bytes one after the other is escaping them together.
pub proof fn lemma_escape_append(a: Seq<u8>, b: Seq<u8>)
    ensures
        escape(a + b) == escape(a) + escape(b),
    decreases a.len(),
{
    if a.len() > 0 {
        lemma_escape_append(a.drop_first(), b);
        assert((a + b).drop_first() =~= a.drop_first() + b);
        assert(escape(a + b) =~= escape(a) + escape(b));
    } else {
        assert(a + b =~= b);
    }
}

/// The bytes that carry a telnet event.
pub open spec fn encode_spec(e: EventView) -> Seq<u8> {
    match e {
        EventView::Data(d) => escape(d),
        EventView::Command(c) => seq![IAC, c],
        EventView::Negotiate(c, o) => seq![IAC, c, o],
        EventView::SubNegotiate(o, d) => seq![IAC, SB, o] + escape(d) + seq![IAC, SE],
    }
}

/// Appends the escaped payload to `out`.
fn write_escaped(out: &mut Vec<u8>, data: &Vec<u8>)
    ensures
        final(out)@ == old(out)@ + escape(data@),
{
    let n = data.len();
    let mut i: usize = 0;
    while i < n
        invariant
            n == data@.len(),
            i <= n,
            out@ == old(out)@ + escape(data@.take(i as int)),
        decreases n - i,
    {
        let b = data[i];
        proof {
            lemma_escape_append(data@.take(i as int), seq![b]);
            assert(data@.take(i + 1) =~= data@.take(i as int) + seq![b]);
            assert(escape(seq![b]) =~= escape_byte(b)) by {
                reveal_with_fuel(escape, 2);
                assert(seq![b].drop_first() =~= Seq::<u8>::empty());
            }
        }
        if b == IAC {
            out.push(IAC);
            out.push(IAC);
        } else {
            out.push(b);
        }
        assert(out@ =~= old(out)@ + escape(data@.take(i + 1)));
        i = i + 1;
    }
    assert(data@.take(n as int) =~= data@);
}

/// Writes a telnet event as bytes.
pub fn encode_event(event: &TelnetEvent) -> (out: Vec<u8>)
    ensures
        out@ == encode_spec(event@),
{
    let mut out: Vec<u8> = Vec::new();
    match event {
        TelnetEvent::Data(d) => {
            write_escaped(&mut out, d);
        },
        TelnetEvent::Command(c) => {
            out.push(IAC);
            out.push(*c);
        },
        TelnetEvent::Negotiate(c, o) => {
            out.push(IAC);
            out.push(*c);
            out.push(*o);
        },
        TelnetEvent::SubNegotiate(o, d) => {
            out.push(IAC);
            out.push(SB);
            out.push(*o);
            write_escaped(&mut out, d);
            out.push(IAC);
            out.push(SE);
        },
    }
    assert(out@ =~= encode_spec(event@));
    out
}

/// Where the run of plain data that starts at `i` ends: at the first IAC,
/// or at the end of the bytes.
pub open spec fn data_end(buf: Seq<u8>, i: int) -> int
    decreases buf.len() - i,
{
    if i < 0 || i >= buf.len() || buf[i] == IAC {
        i
    } else {
        data_end(buf, i + 1)
    }
}

/// Reads the payload of a subnegotiation from position `i` on, having read
/// `acc` so far: IAC SE ends it, IAC IAC stands for one IAC, and any other
/// byte stands for itself. Gives the payload and the position after IAC SE,
/// or nothing while IAC SE has not yet arrived.
pub open spec fn sb_scan(buf: Seq<u8>, i: int, acc: Seq<u8>) -> Option<(Seq<u8>, int)>
    decreases buf.len() - i,
{
    if i < 0 || i + 1 >= buf.len() {
        None
    } else if buf[i] == IAC && buf[i + 1] == SE {
        Some((acc, i + 2))
    } else if buf[i] == IAC && buf[i + 1] == IAC {
        sb_scan(buf, i + 2, acc.push(IAC))
    } else {
        sb_scan(buf, i + 1, acc.push(buf[i]))
    }
}

/// The first event that the bytes hold, with the number of bytes it takes;
/// nothing while the bytes do not yet hold a whole event.
pub open spec fn decode_spec(buf: Seq<u8>) -> Option<(EventView, int)> {
    if buf.len() == 0 {
        None
    } else if buf[0] != IAC {
        Some((EventView::Data(buf.take(data_end(buf, 0))), data_end(buf, 0)))
    } else if buf.len() < 2 {
        None
    } else if buf[1] == IAC {
        Some((EventView::Data(seq![IAC]), 2))
    } else if buf[1] == WILL || buf[1] == WONT || buf[1] == DO || buf[1] == DONT {
        if buf.len() < 3 {
            None
        } else {
            Some((EventView::Negotiate(buf[1], buf[2]), 3))
        }
    } else if buf[1] == SB {
        if buf.len() < 3 {
            None
        } else {
            match sb_scan(buf, 3, seq![]) {
                Some((payload, n)) => Some((EventView::SubNegotiate(buf[2], payload), n)),
                None => None,
            }
        }
    } else {
        Some((EventView::Command(buf[1]), 2))
    }
}

/// Reads the first event that the bytes hold, and the number of bytes it
/// takes; nothing while they do not yet hold a whole event.
pub fn decode_event(buf: &[u8]) -> (res: Option<(TelnetEvent, usize)>)
    ensures
        match res {
            Some((e, n)) => decode_spec(buf@) == Some((e@, n as int)),
            None => decode_spec(buf@) is None,
        },
{
    let len = buf.len();
    if len == 0 {
        return None;
    }
    if buf[0] != IAC {
        let mut i: usize = 0;
        let mut data: Vec<u8> = Vec::new();
        while i < len && buf[i] != IAC
            invariant
                len == buf@.len(),
                0 <= i <= len,
                data_end(buf@, 0) == data_end(buf@, i as int),
                data@ == buf@.take(i as int),
            decreases len - i,
        {
            data.push(buf[i]);
            i = i + 1;
            assert(data@ =~= buf@.take(i as int));
        }
        let e = TelnetEvent::Data(data);
        assert(data_end(buf@, i as int) == i);
        assert(e@ == EventView::Data(buf@.take(data_end(buf@, 0))));
        return Some((e, i));
    }
    if len < 2 {
        return None;
    }
    let c = buf[1];
    if c == IAC {
        let mut data: Vec<u8> = Vec::new();
        data.push(IAC);
        assert(data@ =~= seq![IAC]);
        let e = TelnetEvent::Data(data);
        assert(e@ == EventView::Data(seq![IAC]));
        return Some((e, 2));
    }
    if c == WILL || c == WONT || c == DO || c == DONT {
        if len < 3 {
            return None;
        }
        return Some((TelnetEvent::Negotiate(c, buf[2]), 3));
    }
    if c == SB {
        if len < 3 {
            return None;
        }
        let option = buf[2];
        let mut payload: Vec<u8> = Vec::new();
        let mut i: usize = 3;
        assert(payload@ =~= Seq::<u8>::empty());
        loop
            invariant
                len == buf@.len(),
                3 <= i <= len,
                buf@[0] == IAC,
                buf@[1] == SB,
                option == buf@[2],
                sb_scan(buf@, 3, seq![]) == sb_scan(buf@, i as int, payload@),
            decreases len - i,
        {
            if len - i < 2 {
                return None;
            }
            if buf[i] == IAC && buf[i + 1] == SE {
                let e = TelnetEvent::SubNegotiate(option, payload);
                return Some((e, i + 2));
            } else if buf[i] == IAC && buf[i + 1] == IAC {
                payload.push(IAC);
                i = i + 2;
            } else {
                payload.push(buf[i]);
                i = i + 1;
            }
        }
    }
    Some((TelnetEvent::Command(c), 2))
}

/// Reading back what `sb_scan` reads of an escaped payload that IAC SE
/// ends, whatever comes before and after.
proof fn lemma_sb_scan_escaped(pre: Seq<u8>, d: Seq<u8>, post: Seq<u8>, acc: Seq<u8>)
    ensures
        sb_scan(pre + escape(d) + seq![IAC, SE] + post, pre.len() as int, acc)
            == Some((acc + d, pre.len() + escape(d).len() + 2int)),
    decreases d.len(),
{
    let buf = pre + escape(d) + seq![IAC, SE] + post;
    let m = pre.len() as int;
    if d.len() == 0 {
        assert(escape(d) =~= Seq::<u8>::empty());
        assert(buf[m] == IAC && buf[m + 1] == SE);
        assert(acc + d =~= acc);
    } else {
        let b = d[0];
        let rest = d.drop_first();
        let pre2 = pre + escape_byte(b);
        assert(escape(d) == escape_byte(b) + escape(rest));
        assert(buf =~= pre2 + escape(rest) + seq![IAC, SE] + post);
        lemma_sb_scan_escaped(pre2, rest, post, acc.push(b));
        assert(acc.push(b) + rest =~= acc + d);
        if b == IAC {
            assert(buf[m] == IAC && buf[m + 1] == IAC);
        } else {
            assert(buf[m] == b);
        }
    }
}

/// Reading back a written event gives the event again, for every event but
/// data that is empty or holds IAC (read back as several data events), bare
/// commands whose byte would start another kind of event, and negotiations
/// whose command is not WILL, WONT, DO or DONT (read back as bare commands).
pub proof fn lemma_decode_encode(e: EventView)
    requires
        e matches EventView::Data(d) ==> d.len() > 0 && forall|i: int| 0 <= i < d.len() ==> d[i] != IAC,
        e matches EventView::Command(c) ==> c != IAC && c != WILL && c != WONT && c != DO && c != DONT && c != SB,
        e matches EventView::Negotiate(c, _) ==> c == WILL || c == WONT || c == DO || c == DONT,
    ensures
        decode_spec(encode_spec(e)) == Some((e, encode_spec(e).len() as int)),
{
    match e {
        EventView::Data(d) => {
            lemma_escape_plain(d);
            lemma_data_end_plain(d, 0);
            assert(d.take(d.len() as int) =~= d);
            let buf = encode_spec(e);
            assert(buf == d);
            assert(d[0] != IAC);
            assert(data_end(buf, 0) == d.len());
            assert(buf.take(data_end(buf, 0)) == d);
            assert(decode_spec(buf) == Some((EventView::Data(d), d.len() as int)));
        },
        EventView::Command(c) => {},
        EventView::Negotiate(c, o) => {},
        EventView::SubNegotiate(o, d) => {
            let pre = seq![IAC, SB, o];
            lemma_sb_scan_escaped(pre, d, seq![], seq![]);
            assert(pre + escape(d) + seq![IAC, SE] + Seq::<u8>::empty() =~= encode_spec(e));
            assert(Seq::<u8>::empty() + d =~= d);
        },
    }
}

/// Bytes without IAC are written as they are.
proof fn lemma_escape_plain(d: Seq<u8>)
    requires
        forall|i: int| 0 <= i < d.len() ==> d[i] != IAC,
    ensures
        escape(d) == d,
    decreases d.len(),
{
    if d.len() > 0 {
        lemma_escape_plain(d.drop_first());
        assert(escape(d) =~= d);
    }
}

/// Bytes without IAC are one run of data.
proof fn lemma_data_end_plain(d: Seq<u8>, i: int)
    requires
        0 <= i <= d.len(),
        forall|j: int| 0 <= j < d.len() ==> d[j] != IAC,
    ensures
        data_end(d, i) == d.len(),
    decreases d.len() - i,
{
    if i < d.len() {
        lemma_data_end_plain(d, i + 1);
    }
}

} // verus!
