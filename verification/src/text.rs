//! Text handling: line endings towards the client, and small string tests
//! over characters.

use crate::outside::push_char;
use vstd::prelude::*;
use vstd::string::{StrSliceExecFns, StringExecFns};
use vstd::utf8::{decode_utf8, valid_utf8};

verus! {

broadcast use vstd::string::group_string_axioms;

/// The character that the portal doubles so that a client does not read it
/// as the start of a telnet command.
pub open spec fn iac_char() -> char {
    '\u{ff}'
}

/// What `ensure_crlf` writes for the character at `i`: a line feed that
/// does not follow a carriage return gets one put before it, the IAC
/// character is doubled, and every other character stays as it is.
pub open spec fn crlf_expansion(s: Seq<char>, i: int) -> Seq<char> {
    let c = s[i];
    if c == '\n' {
        if i > 0 && s[i - 1] == '\r' {
            seq!['\n']
        } else {
            seq!['\r', '\n']
        }
    } else if c == iac_char() {
        seq![iac_char(), iac_char()]
    } else {
        seq![c]
    }
}

/// The expansions of the first `n` characters, one after another.
pub open spec fn crlf_prefix(s: Seq<char>, n: int) -> Seq<char>
    decreases n,
{
    if n <= 0 {
        seq![]
    } else {
        crlf_prefix(s, n - 1) + crlf_expansion(s, n - 1)
    }
}

/// The text as sent to a telnet client.
pub open spec fn crlf_spec(s: Seq<char>) -> Seq<char> {
    crlf_prefix(s, s.len() as int)
}

/// Makes every line end in CR LF and escapes the IAC character.
pub fn ensure_crlf(input: &str) -> (result: String)
    ensures
        result@ == crlf_spec(input@),
{
    let mut result = String::new();
    let mut prev_char_is_cr = false;
    let ghost s = input@;
    for c in iter: input.chars()
        invariant
            iter.seq() == s,
            result@ == crlf_prefix(s, iter.index() as int),
            prev_char_is_cr == (iter.index() > 0 && s[iter.index() - 1] == '\r'),
    {
        if c == '\r' {
            prev_char_is_cr = true;
            push_char(&mut result, '\r');
        } else if c == '\n' {
            if !prev_char_is_cr {
                push_char(&mut result, '\r');
            }
            push_char(&mut result, c);
            prev_char_is_cr = false;
        } else if c == '\u{ff}' {
            push_char(&mut result, c);
            push_char(&mut result, c);
            prev_char_is_cr = false;
        } else {
            push_char(&mut result, c);
            prev_char_is_cr = false;
        }
    }
    result
}

/// The two strings hold the same characters.
pub fn str_eq(a: &str, b: &str) -> (eq: bool)
    ensures
        eq == (a@ == b@),
{
    let n = a.unicode_len();
    if n != b.unicode_len() {
        return false;
    }
    let mut i: usize = 0;
    while i < n
        invariant
            n == a@.len() == b@.len(),
            i <= n,
            forall|j: int| 0 <= j < i ==> a@[j] == b@[j],
        decreases n - i,
    {
        if a.get_char(i) != b.get_char(i) {
            return false;
        }
        i = i + 1;
    }
    assert(a@ =~= b@);
    true
}

/// `s` begins with the characters of `prefix`.
pub open spec fn has_prefix(s: Seq<char>, prefix: Seq<char>) -> bool {
    prefix.len() <= s.len() && s.take(prefix.len() as int) == prefix
}

/// `s` ends with the characters of `suffix`.
pub open spec fn has_suffix(s: Seq<char>, suffix: Seq<char>) -> bool {
    suffix.len() <= s.len() && s.skip(s.len() - suffix.len()) == suffix
}

/// `s` begins with `prefix`.
pub fn starts_with(s: &str, prefix: &str) -> (b: bool)
    ensures
        b == has_prefix(s@, prefix@),
{
    let n = s.unicode_len();
    let m = prefix.unicode_len();
    if m > n {
        return false;
    }
    let mut i: usize = 0;
    while i < m
        invariant
            n == s@.len(),
            m == prefix@.len(),
            m <= n,
            i <= m,
            forall|j: int| 0 <= j < i ==> s@[j] == prefix@[j],
        decreases m - i,
    {
        if s.get_char(i) != prefix.get_char(i) {
            assert(s@.take(m as int)[i as int] != prefix@[i as int]);
            return false;
        }
        i = i + 1;
    }
    assert(s@.take(m as int) =~= prefix@);
    true
}

/// `s` ends with `suffix`.
pub fn ends_with(s: &str, suffix: &str) -> (b: bool)
    ensures
        b == has_suffix(s@, suffix@),
{
    let n = s.unicode_len();
    let m = suffix.unicode_len();
    if m > n {
        return false;
    }
    let start = n - m;
    let mut i: usize = 0;
    while i < m
        invariant
            n == s@.len(),
            m == suffix@.len(),
            start == n - m,
            i <= m,
            forall|j: int| 0 <= j < i ==> s@[start + j] == suffix@[j],
        decreases m - i,
    {
        if s.get_char(start + i) != suffix.get_char(i) {
            assert(s@.skip(start as int)[i as int] != suffix@[i as int]);
            return false;
        }
        i = i + 1;
    }
    assert(s@.skip(start as int) =~= suffix@);
    true
}

/// The position of the first space in `s`, or its length where it holds
/// none.
pub open spec fn space_index(s: Seq<char>) -> int
    decreases s.len(),
{
    if s.len() == 0 {
        0
    } else if s[0] == ' ' {
        0
    } else {
        1 + space_index(s.drop_first())
    }
}

/// `space_index` is the first space, or the length where there is none.
pub proof fn lemma_space_index(s: Seq<char>)
    ensures
        0 <= space_index(s) <= s.len(),
        forall|j: int| 0 <= j < space_index(s) ==> s[j] != ' ',
        space_index(s) < s.len() ==> s[space_index(s)] == ' ',
    decreases s.len(),
{
    if s.len() > 0 && s[0] != ' ' {
        lemma_space_index(s.drop_first());
        assert forall|j: int| 0 <= j < space_index(s) implies s[j] != ' ' by {
            if j > 0 {
                assert(s[j] == s.drop_first()[j - 1]);
            }
        }
    }
}

/// The first space is at `i` exactly when `i` is the position of a space
/// before which there is none.
pub proof fn lemma_space_index_at(s: Seq<char>, i: int)
    requires
        0 <= i <= s.len(),
        forall|j: int| 0 <= j < i ==> s[j] != ' ',
        i < s.len() ==> s[i] == ' ',
    ensures
        space_index(s) == i,
{
    lemma_space_index(s);
    if space_index(s) < i {
        assert(s[space_index(s)] == ' ');
    } else if space_index(s) > i {
        assert(s[i] != ' ');
    }
}

/// Finds the first space, counted in characters.
pub fn find_space(s: &str) -> (pos: usize)
    ensures
        pos == space_index(s@),
{
    let n = s.unicode_len();
    let mut i: usize = 0;
    while i < n
        invariant
            n == s@.len(),
            i <= n,
            forall|j: int| 0 <= j < i ==> s@[j] != ' ',
        decreases n - i,
    {
        if s.get_char(i) == ' ' {
            proof {
                lemma_space_index_at(s@, i as int);
            }
            return i;
        }
        i = i + 1;
    }
    proof {
        lemma_space_index_at(s@, n as int);
    }
    n
}

/// The characters without any carriage return.
pub open spec fn strip_cr(s: Seq<char>) -> Seq<char>
    decreases s.len(),
{
    if s.len() == 0 {
        seq![]
    } else if s.last() == '\r' {
        strip_cr(s.drop_last())
    } else {
        strip_cr(s.drop_last()).push(s.last())
    }
}

/// Removes every carriage return.
pub fn remove_cr(s: &str) -> (r: String)
    ensures
        r@ == strip_cr(s@),
{
    let mut r = String::new();
    for c in iter: s.chars()
        invariant
            iter.seq() == s@,
            r@ == strip_cr(s@.take(iter.index() as int)),
    {
        proof {
            assert(s@.take(iter.index() + 1).drop_last() =~= s@.take(iter.index() as int));
        }
        if c != '\r' {
            push_char(&mut r, c);
        }
    }
    proof {
        assert(s@.take(s@.len() as int) =~= s@);
    }
    r
}

/// The line feed byte.
pub open spec fn line_feed() -> u8 {
    10
}

/// The bytes split at each line feed: the lines, each without its line
/// feed, and what follows the last line feed.
pub open spec fn split_lines(buf: Seq<u8>) -> (Seq<Seq<u8>>, Seq<u8>)
    decreases buf.len(),
{
    if buf.len() == 0 {
        (seq![], seq![])
    } else {
        let (lines, rest) = split_lines(buf.drop_last());
        if buf.last() == line_feed() {
            (lines.push(rest), seq![])
        } else {
            (lines, rest.push(buf.last()))
        }
    }
}

/// The commands that the lines make: each line whose bytes are valid UTF-8
/// gives the text they encode, without carriage returns; a line that is not
/// UTF-8 gives none.
pub open spec fn commands_of(lines: Seq<Seq<u8>>) -> Seq<Seq<char>>
    decreases lines.len(),
{
    if lines.len() == 0 {
        seq![]
    } else if valid_utf8(lines.last()) {
        commands_of(lines.drop_last()).push(strip_cr(decode_utf8(lines.last())))
    } else {
        commands_of(lines.drop_last())
    }
}

/// The strings of a list, each as its characters.
pub open spec fn strings_view(v: Seq<String>) -> Seq<Seq<char>> {
    Seq::new(v.len(), |i: int| v[i]@)
}

/// Splits the bytes into their complete lines and what follows them.
pub fn split_commands(buf: &Vec<u8>) -> (res: (Vec<String>, Vec<u8>))
    ensures
        strings_view(res.0@) == commands_of(split_lines(buf@).0),
        res.1@ == split_lines(buf@).1,
{
    let mut commands: Vec<String> = Vec::new();
    let mut line: Vec<u8> = Vec::new();
    let ghost mut lines: Seq<Seq<u8>> = seq![];
    let n = buf.len();
    let mut i: usize = 0;
    while i < n
        invariant
            n == buf@.len(),
            i <= n,
            split_lines(buf@.take(i as int)) == (lines, line@),
            strings_view(commands@) == commands_of(lines),
        decreases n - i,
    {
        let b = buf[i];
        proof {
            assert(buf@.take(i + 1).drop_last() =~= buf@.take(i as int));
        }
        if b == 10u8 {
            let ghost l = line@;
            proof {
                assert(lines.push(l).drop_last() =~= lines);
            }
            let bytes = line;
            line = Vec::new();
            match crate::outside::utf8_string(bytes) {
                Some(text) => {
                    let cmd = remove_cr(text.as_str());
                    let ghost before = commands@;
                    commands.push(cmd);
                    proof {
                        assert(strings_view(commands@) =~= strings_view(before).push(cmd@));
                    }
                },
                None => {},
            }
            proof {
                assert(lines.push(l).drop_last() =~= lines);
                lines = lines.push(l);
            }
        } else {
            line.push(b);
        }
        i = i + 1;
    }
    proof {
        assert(buf@.take(n as int) =~= buf@);
    }
    (commands, line)
}

/// A status variable as MSSP sends it: the name, a space, the value.
pub open spec fn mssp_entry(entry: (String, String)) -> Seq<char> {
    entry.0@ + seq![' '] + entry.1@
}

/// The status variables, one per line, the lines joined by CR LF.
pub open spec fn mssp_text(entries: Seq<(String, String)>) -> Seq<char>
    decreases entries.len(),
{
    if entries.len() == 0 {
        seq![]
    } else if entries.len() == 1 {
        mssp_entry(entries[0])
    } else {
        mssp_text(entries.drop_last()) + seq!['\r', '\n'] + mssp_entry(entries.last())
    }
}

/// The payload of an MSSP subnegotiation: the status text in UTF-8.
pub fn mssp_payload(entries: &Vec<(String, String)>) -> (payload: Vec<u8>)
    ensures
        payload@ == vstd::utf8::encode_utf8(mssp_text(entries@)),
{
    let mut text = String::new();
    let n = entries.len();
    let mut i: usize = 0;
    while i < n
        invariant
            n == entries@.len(),
            i <= n,
            text@ == mssp_text(entries@.take(i as int)),
        decreases n - i,
    {
        let ghost before = text@;
        if i > 0 {
            push_char(&mut text, '\r');
            push_char(&mut text, '\n');
        }
        text.append(entries[i].0.as_str());
        push_char(&mut text, ' ');
        text.append(entries[i].1.as_str());
        proof {
            let t = entries@.take(i + 1);
            assert(t.drop_last() =~= entries@.take(i as int));
            if i > 0 {
                assert(text@ =~= before + seq!['\r', '\n'] + mssp_entry(entries@[i as int]));
            } else {
                assert(text@ =~= mssp_entry(entries@[i as int]));
            }
        }
        i = i + 1;
    }
    proof {
        assert(entries@.take(n as int) =~= entries@);
    }
    text.as_str().as_bytes_vec()
}

/// The text of a GMCP message: the package name, a space, the JSON body.
pub open spec fn gmcp_text(package: Seq<char>, body: Seq<char>) -> Seq<char> {
    package + seq![' '] + body
}

/// The payload of a GMCP subnegotiation: its text in UTF-8.
pub fn gmcp_payload(package: &str, body: &str) -> (payload: Vec<u8>)
    ensures
        payload@ == vstd::utf8::encode_utf8(gmcp_text(package@, body@)),
{
    let mut text = String::new();
    text.append(package);
    push_char(&mut text, ' ');
    text.append(body);
    assert(text@ =~= gmcp_text(package@, body@));
    text.as_str().as_bytes_vec()
}

/// The payload of text for the user: its lines ended with CR LF, IAC
/// doubled, in UTF-8.
pub fn text_payload(text: &str) -> (payload: Vec<u8>)
    ensures
        payload@ == vstd::utf8::encode_utf8(crlf_spec(text@)),
{
    ensure_crlf(text).as_str().as_bytes_vec()
}

} // verus!
