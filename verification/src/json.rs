//! JSON framing of strings, byte for byte as `serde_json` writes them.

use vstd::prelude::*;
use vstd::string::*;
use crate::text::{push_char, digit_char};

verus! {

/// The lower-case hexadecimal digit for `d` (below sixteen).
pub open spec fn hex_digit(d: int) -> char {
    if d < 10 {
        digit_char(d)
    } else {
        (d - 10 + 97) as char
    }
}

/// How one character appears inside a JSON string literal: `"` and `\` are
/// escaped with a backslash, the control characters below U+0020 get their
/// short escape (`\b \t \n \f \r`) or `\u00XX`, everything else is kept.
pub open spec fn escape_char(c: char) -> Seq<char> {
    if c == '"' {
        seq!['\\', '"']
    } else if c == '\\' {
        seq!['\\', '\\']
    } else if c == '\x08' {
        seq!['\\', 'b']
    } else if c == '\t' {
        seq!['\\', 't']
    } else if c == '\n' {
        seq!['\\', 'n']
    } else if c == '\x0C' {
        seq!['\\', 'f']
    } else if c == '\r' {
        seq!['\\', 'r']
    } else if (c as int) < 0x20 {
        seq!['\\', 'u', '0', '0', hex_digit(c as int / 16), hex_digit(c as int % 16)]
    } else {
        seq![c]
    }
}

/// The escaped contents of a JSON string literal for `s`.
pub open spec fn escape(s: Seq<char>) -> Seq<char>
    decreases s.len(),
{
    if s.len() == 0 {
        Seq::empty()
    } else {
        escape(s.drop_last()) + escape_char(s.last())
    }
}

/// The JSON string literal for `s`.
pub open spec fn json_string(s: Seq<char>) -> Seq<char> {
    seq!['"'] + escape(s) + seq!['"']
}

fn hex_digit_char(d: u32) -> (c: char)
    requires
        d < 16,
    ensures
        c == hex_digit(d as int),
{
    let b: u8 = d as u8;
    if b < 10 {
        (b + 48) as char
    } else {
        (b - 10 + 97) as char
    }
}

fn push_escaped_char(out: &mut String, c: char)
    ensures
        final(out)@ == old(out)@ + escape_char(c),
{
    let ghost before = out@;
    if c == '"' {
        push_char(out, '\\');
        push_char(out, '"');
    } else if c == '\\' {
        push_char(out, '\\');
        push_char(out, '\\');
    } else if c == '\x08' {
        push_char(out, '\\');
        push_char(out, 'b');
    } else if c == '\t' {
        push_char(out, '\\');
        push_char(out, 't');
    } else if c == '\n' {
        push_char(out, '\\');
        push_char(out, 'n');
    } else if c == '\x0C' {
        push_char(out, '\\');
        push_char(out, 'f');
    } else if c == '\r' {
        push_char(out, '\\');
        push_char(out, 'r');
    } else if (c as u32) < 32 {
        let v: u32 = c as u32;
        push_char(out, '\\');
        push_char(out, 'u');
        push_char(out, '0');
        push_char(out, '0');
        push_char(out, hex_digit_char(v / 16));
        push_char(out, hex_digit_char(v % 16));
    } else {
        push_char(out, c);
    }
    assert(out@ =~= before + escape_char(c));
}

/// Appends the JSON string literal for `s` to `out`.
pub fn push_json_string(out: &mut String, s: &str)
    ensures
        final(out)@ == old(out)@ + json_string(s@),
{
    let ghost start = out@;
    let n = s.unicode_len();
    push_char(out, '"');
    let mut i: usize = 0;
    while i < n
        invariant
            i <= n,
            n == s@.len(),
            out@ =~= start + seq!['"'] + escape(s@.take(i as int)),
        decreases n - i,
    {
        let c = s.get_char(i);
        push_escaped_char(out, c);
        assert(s@.take(i + 1).drop_last() =~= s@.take(i as int));
        assert(escape(s@.take(i + 1)) == escape(s@.take(i as int)) + escape_char(c));
        i = i + 1;
    }
    assert(s@.take(n as int) =~= s@);
    push_char(out, '"');
    assert(out@ =~= start + json_string(s@));
}


/// The value of a hexadecimal digit (either case), -1 for other characters.
pub open spec fn hex_value(c: char) -> int {
    if '0' <= c && c <= '9' {
        c as int - 48
    } else if 'a' <= c && c <= 'f' {
        c as int - 87
    } else if 'A' <= c && c <= 'F' {
        c as int - 55
    } else {
        -1
    }
}

/// The character a two-character escape `\x` stands for, if `x` makes one.
pub open spec fn short_escape(x: char) -> Option<char> {
    if x == '"' {
        Some('"')
    } else if x == '\\' {
        Some('\\')
    } else if x == '/' {
        Some('/')
    } else if x == 'b' {
        Some('\x08')
    } else if x == 'f' {
        Some('\x0C')
    } else if x == 'n' {
        Some('\n')
    } else if x == 'r' {
        Some('\r')
    } else if x == 't' {
        Some('\t')
    } else {
        None
    }
}

pub open spec fn prepend(c: char, r: Option<Seq<char>>) -> Option<Seq<char>> {
    match r {
        Some(rest) => Some(seq![c] + rest),
        None => None,
    }
}

/// What a JSON reader makes of the text between the quotes of a string
/// literal (RFC 8259, section 7): `None` where that text holds a bare `"`, a
/// raw control character or an escape that is not one; `\u` escapes naming a
/// surrogate, which only pairs may use, are refused too.
pub open spec fn unescape(t: Seq<char>) -> Option<Seq<char>>
    decreases t.len(),
{
    if t.len() == 0 {
        Some(Seq::empty())
    } else if t[0] == '"' || (t[0] as int) < 0x20 {
        None
    } else if t[0] != '\\' {
        prepend(t[0], unescape(t.drop_first()))
    } else if t.len() < 2 {
        None
    } else if short_escape(t[1]) is Some {
        prepend(short_escape(t[1]).unwrap(), unescape(t.subrange(2, t.len() as int)))
    } else if t[1] == 'u' && t.len() >= 6 && hex_value(t[2]) >= 0 && hex_value(t[3]) >= 0
        && hex_value(t[4]) >= 0 && hex_value(t[5]) >= 0 {
        let v = hex_value(t[2]) * 4096 + hex_value(t[3]) * 256 + hex_value(t[4]) * 16 + hex_value(
            t[5],
        );
        if 0xD800 <= v && v <= 0xDFFF {
            None
        } else {
            prepend(v as char, unescape(t.subrange(6, t.len() as int)))
        }
    } else {
        None
    }
}

proof fn lemma_escape_front(s: Seq<char>)
    requires
        s.len() > 0,
    ensures
        escape(s) == escape_char(s[0]) + escape(s.drop_first()),
    decreases s.len(),
{
    if s.len() == 1 {
        assert(s.drop_last() =~= Seq::<char>::empty());
        assert(s.drop_first() =~= Seq::<char>::empty());
        assert(escape(s) =~= escape_char(s[0]) + escape(s.drop_first()));
    } else {
        lemma_escape_front(s.drop_last());
        assert(s.drop_last().drop_first() =~= s.drop_first().drop_last());
        assert(s.drop_first().last() == s.last());
        assert(escape(s) =~= escape_char(s[0]) + escape(s.drop_first()));
    }
}

proof fn lemma_hex_digit_value(d: int)
    requires
        0 <= d < 16,
    ensures
        hex_value(hex_digit(d)) == d,
{
    if d < 10 {
        assert(digit_char(d) as int == d + 48);
    } else {
        assert(((d - 10 + 97) as char) as int == d - 10 + 97);
    }
}

proof fn lemma_unescape_one(c: char, rest: Seq<char>)
    ensures
        unescape(escape_char(c) + rest) == prepend(c, unescape(rest)),
{
    let t = escape_char(c) + rest;
    if c == '"' || c == '\\' || c == '\x08' || c == '\t' || c == '\n' || c == '\x0C' || c == '\r' {
        assert(t.subrange(2, t.len() as int) =~= rest);
    } else if (c as int) < 0x20 {
        let hi = c as int / 16;
        let lo = c as int % 16;
        lemma_hex_digit_value(hi);
        lemma_hex_digit_value(lo);
        assert(t[2] == '0' && t[3] == '0');
        assert(hex_value('0') == 0);
        assert(t[4] == hex_digit(hi) && t[5] == hex_digit(lo));
        let v = hex_value(t[2]) * 4096 + hex_value(t[3]) * 256 + hex_value(t[4]) * 16 + hex_value(
            t[5],
        );
        assert(v == c as int);
        assert((v as char) == c);
        assert(t.subrange(6, t.len() as int) =~= rest);
    } else {
        assert(t.drop_first() =~= rest);
    }
}

/// A JSON reader gives back exactly the text that was escaped: the escaped
/// text is a valid string body, and each character comes back as it was.
pub proof fn unescape_undoes_escape(s: Seq<char>)
    ensures
        unescape(escape(s)) == Some(s),
    decreases s.len(),
{
    if s.len() == 0 {
    } else {
        lemma_escape_front(s);
        unescape_undoes_escape(s.drop_first());
        lemma_unescape_one(s[0], escape(s.drop_first()));
        assert(seq![s[0]] + s.drop_first() =~= s);
    }
}

} // verus!
