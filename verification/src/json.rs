//! JSON string literals for the HTTP adapter's responses.

use vstd::prelude::*;

use crate::text::{chars_of, control, is_control, push_char};

verus! {

/// Lower-case hexadecimal digits.
pub open spec fn hex_digits() -> Seq<char> {
    seq!['0', '1', '2', '3', '4', '5', '6', '7', '8', '9', 'a', 'b', 'c', 'd', 'e', 'f']
}

/// How one character is written inside a JSON string literal: quote,
/// backslash, newline, carriage return and tab get their short escapes, other
/// control characters a `\u00XX` escape in lower-case hex, and everything
/// else stands as it is.
pub open spec fn escaped(c: char) -> Seq<char> {
    if c == '"' {
        seq!['\\', '"']
    } else if c == '\\' {
        seq!['\\', '\\']
    } else if c == '\n' {
        seq!['\\', 'n']
    } else if c == '\r' {
        seq!['\\', 'r']
    } else if c == '\t' {
        seq!['\\', 't']
    } else if is_control(c) {
        seq![
            '\\',
            'u',
            '0',
            '0',
            hex_digits()[(c as int) / 16],
            hex_digits()[(c as int) % 16],
        ]
    } else {
        seq![c]
    }
}

/// The escaped form of a whole text.
pub open spec fn escaped_all(s: Seq<char>) -> Seq<char>
    decreases s.len(),
{
    if s.len() == 0 {
        Seq::empty()
    } else {
        escaped(s[0]) + escaped_all(s.skip(1))
    }
}

/// The JSON string literal for `s`.
pub open spec fn json_quoted(s: Seq<char>) -> Seq<char> {
    seq!['"'] + escaped_all(s) + seq!['"']
}

// ---------------------------------------------------------------------------
// Reading JSON string literals back
// ---------------------------------------------------------------------------

/// The character that a one-letter escape `\x` stands for.
pub open spec fn short_escape(x: char) -> Option<char> {
    if x == '"' {
        Some('"')
    } else if x == '\\' {
        Some('\\')
    } else if x == '/' {
        Some('/')
    } else if x == 'b' {
        Some('\u{8}')
    } else if x == 'f' {
        Some('\u{c}')
    } else if x == 'n' {
        Some('\n')
    } else if x == 'r' {
        Some('\r')
    } else if x == 't' {
        Some('\t')
    } else {
        None
    }
}

/// The value of one hexadecimal digit, either case.
pub open spec fn hex_value(c: char) -> Option<int> {
    if '0' <= c && c <= '9' {
        Some(c as int - 48)
    } else if 'a' <= c && c <= 'f' {
        Some(c as int - 87)
    } else if 'A' <= c && c <= 'F' {
        Some(c as int - 55)
    } else {
        None
    }
}

/// The character named by the four hex digits of a `\uXXXX` escape. Halves
/// of surrogate pairs are not read.
pub open spec fn unicode_escape(h: Seq<char>) -> Option<char> {
    if h.len() == 4 && hex_value(h[0]) is Some && hex_value(h[1]) is Some && hex_value(
        h[2],
    ) is Some && hex_value(h[3]) is Some {
        let code = 4096 * hex_value(h[0]).unwrap() + 256 * hex_value(h[1]).unwrap() + 16
            * hex_value(h[2]).unwrap() + hex_value(h[3]).unwrap();
        if 0xd800 <= code && code <= 0xdfff {
            None
        } else {
            Some((code as u32) as char)
        }
    } else {
        None
    }
}

pub open spec fn prepend(c: char, rest: Option<Seq<char>>) -> Option<Seq<char>> {
    match rest {
        Some(r) => Some(seq![c] + r),
        None => None,
    }
}

/// The text that the body of a JSON string literal stands for, or `None`
/// where it is not a well-formed body (a raw quote, a raw control character
/// below U+0020, or an unknown escape).
pub open spec fn json_unescape(t: Seq<char>) -> Option<Seq<char>>
    decreases t.len(),
{
    if t.len() == 0 {
        Some(Seq::empty())
    } else if t[0] == '\\' && t.len() >= 2 && short_escape(t[1]) is Some {
        prepend(short_escape(t[1]).unwrap(), json_unescape(t.skip(2)))
    } else if t[0] == '\\' && t.len() >= 6 && t[1] == 'u' && unicode_escape(t.subrange(2, 6)) is Some {
        prepend(unicode_escape(t.subrange(2, 6)).unwrap(), json_unescape(t.skip(6)))
    } else if t[0] == '\\' || t[0] == '"' || (t[0] as u32) < 0x20 {
        None
    } else {
        prepend(t[0], json_unescape(t.skip(1)))
    }
}

/// The text that a JSON string literal stands for.
pub open spec fn json_unquote(t: Seq<char>) -> Option<Seq<char>> {
    if t.len() >= 2 && t[0] == '"' && t[t.len() - 1] == '"' {
        json_unescape(t.subrange(1, t.len() - 1))
    } else {
        None
    }
}

proof fn lemma_unescape_one(c: char, rest: Seq<char>)
    ensures
        json_unescape(escaped(c) + rest) == prepend(c, json_unescape(rest)),
{
    let t = escaped(c) + rest;
    if c == '"' || c == '\\' || c == '\n' || c == '\r' || c == '\t' {
        assert(t.skip(2) =~= rest);
    } else if is_control(c) {
        let u = c as int;
        let h = t.subrange(2, 6);
        assert(h =~= seq!['0', '0', hex_digits()[u / 16], hex_digits()[u % 16]]);
        assert(u <= 0x9f);
        assert(hex_value(hex_digits()[u / 16]) == Some(u / 16)) by {
            assert(0 <= u / 16 <= 9);
        }
        assert(hex_value(hex_digits()[u % 16]) == Some(u % 16));
        assert(unicode_escape(h) == Some(c)) by {
            vstd::utf8::char_u32_cast(c, c as u32);
        }
        assert(t.skip(6) =~= rest);
    } else {
        assert(t.skip(1) =~= rest);
    }
}

proof fn lemma_unescape_all(s: Seq<char>)
    ensures
        json_unescape(escaped_all(s)) == Some(s),
    decreases s.len(),
{
    if s.len() == 0 {
    } else {
        lemma_unescape_all(s.skip(1));
        lemma_unescape_one(s[0], escaped_all(s.skip(1)));
        assert(seq![s[0]] + s.skip(1) =~= s);
    }
}

/// Reading back the literal that `json_string` writes gives the input
/// text: the literal is well formed, and no character is lost or changed.
pub proof fn json_literal_round_trip(s: Seq<char>)
    ensures
        json_unquote(json_quoted(s)) == Some(s),
{
    let t = json_quoted(s);
    assert(t.subrange(1, t.len() - 1) =~= escaped_all(s));
    lemma_unescape_all(s);
}

proof fn lemma_escaped_all_concat(a: Seq<char>, b: Seq<char>)
    ensures
        escaped_all(a + b) == escaped_all(a) + escaped_all(b),
    decreases a.len(),
{
    if a.len() == 0 {
        assert(a + b =~= b);
        assert(escaped_all(a) + escaped_all(b) =~= escaped_all(b));
    } else {
        lemma_escaped_all_concat(a.skip(1), b);
        assert((a + b).skip(1) =~= a.skip(1) + b);
        assert(escaped_all(a + b) =~= escaped(a[0]) + escaped_all(a.skip(1) + b));
        assert(escaped_all(a) + escaped_all(b) =~= escaped(a[0]) + (escaped_all(a.skip(1))
            + escaped_all(b)));
    }
}

proof fn lemma_escaped_all_take(s: Seq<char>, i: int)
    requires
        0 <= i < s.len(),
    ensures
        escaped_all(s.take(i + 1)) == escaped_all(s.take(i)) + escaped(s[i]),
{
    assert(s.take(i + 1) =~= s.take(i) + seq![s[i]]);
    lemma_escaped_all_concat(s.take(i), seq![s[i]]);
    let one = seq![s[i]];
    assert(one.skip(1) =~= Seq::<char>::empty());
    assert(escaped_all(one.skip(1)) == Seq::<char>::empty());
    assert(escaped_all(one) == escaped(one[0]) + escaped_all(one.skip(1)));
    assert(escaped_all(one) =~= escaped(s[i]));
}

fn hex_digit(n: u32) -> (c: char)
    requires
        n < 16,
    ensures
        c == hex_digits()[n as int],
{
    match n {
        0 => '0',
        1 => '1',
        2 => '2',
        3 => '3',
        4 => '4',
        5 => '5',
        6 => '6',
        7 => '7',
        8 => '8',
        9 => '9',
        10 => 'a',
        11 => 'b',
        12 => 'c',
        13 => 'd',
        14 => 'e',
        _ => 'f',
    }
}

fn push_escaped(out: &mut String, c: char)
    ensures
        final(out)@ == old(out)@ + escaped(c),
{
    let ghost start = out@;
    if c == '"' {
        push_char(out, '\\');
        push_char(out, '"');
    } else if c == '\\' {
        push_char(out, '\\');
        push_char(out, '\\');
    } else if c == '\n' {
        push_char(out, '\\');
        push_char(out, 'n');
    } else if c == '\r' {
        push_char(out, '\\');
        push_char(out, 'r');
    } else if c == '\t' {
        push_char(out, '\\');
        push_char(out, 't');
    } else if control(c) {
        let u = c as u32;
        push_char(out, '\\');
        push_char(out, 'u');
        push_char(out, '0');
        push_char(out, '0');
        push_char(out, hex_digit(u / 16));
        push_char(out, hex_digit(u % 16));
    } else {
        push_char(out, c);
    }
    assert(out@ =~= start + escaped(c));
}

/// Write `value` as a JSON string literal.
pub fn json_string(value: &str) -> (literal: String)
    ensures
        literal@ == json_quoted(value@),
{
    let cs = chars_of(value);
    let mut out = String::new();
    push_char(&mut out, '"');
    let n = cs.len();
    for i in 0..n
        invariant
            n == cs@.len(),
            out@ == seq!['"'] + escaped_all(cs@.take(i as int)),
    {
        proof {
            lemma_escaped_all_take(cs@, i as int);
        }
        push_escaped(&mut out, cs[i]);
        assert(out@ =~= seq!['"'] + escaped_all(cs@.take(i + 1)));
    }
    push_char(&mut out, '"');
    assert(cs@.take(n as int) =~= value@);
    out
}

} // verus!
