//! Character classes and small text helpers shared by the validators.

use vstd::prelude::*;
use vstd::utf8::encode_utf8;

verus! {

/// Unicode `White_Space`, the class that `char::is_whitespace` tests.
pub open spec fn is_white_space(c: char) -> bool {
    ||| ('\u{9}' <= c && c <= '\u{d}')
    ||| c == ' '
    ||| c == '\u{85}'
    ||| c == '\u{a0}'
    ||| c == '\u{1680}'
    ||| ('\u{2000}' <= c && c <= '\u{200a}')
    ||| c == '\u{2028}'
    ||| c == '\u{2029}'
    ||| c == '\u{202f}'
    ||| c == '\u{205f}'
    ||| c == '\u{3000}'
}

/// Unicode general category `Cc`, the class that `char::is_control` tests.
pub open spec fn is_control(c: char) -> bool {
    c <= '\u{1f}' || ('\u{7f}' <= c && c <= '\u{9f}')
}

/// Length in bytes of the UTF-8 encoding of `s`.
pub open spec fn utf8_len(s: Seq<char>) -> nat {
    encode_utf8(s).len()
}

pub fn white_space(c: char) -> (r: bool)
    ensures
        r == is_white_space(c),
{
    ('\u{9}' <= c && c <= '\u{d}') || c == ' ' || c == '\u{85}' || c == '\u{a0}' || c
        == '\u{1680}' || ('\u{2000}' <= c && c <= '\u{200a}') || c == '\u{2028}' || c
        == '\u{2029}' || c == '\u{202f}' || c == '\u{205f}' || c == '\u{3000}'
}

pub fn control(c: char) -> (r: bool)
    ensures
        r == is_control(c),
{
    c <= '\u{1f}' || ('\u{7f}' <= c && c <= '\u{9f}')
}

/// Collect the characters of `s` in order.
pub fn chars_of(s: &str) -> (out: Vec<char>)
    ensures
        out@ == s@,
{
    let mut out: Vec<char> = Vec::new();
    let it = s.chars();
    for c in iter: it
        invariant
            out@ == iter.seq().take(iter.index() as int),
            iter.seq() == s@,
    {
        out.push(c);
    }
    out
}

/// Number of bytes in the UTF-8 encoding of `s`.
pub fn byte_len(s: &str) -> (n: usize)
    ensures
        n == utf8_len(s@),
{
    s.as_bytes().len()
}

/// Whether two texts hold the same characters.
pub fn same_text(a: &str, b: &str) -> (r: bool)
    ensures
        r == (a@ == b@),
{
    let x = chars_of(a);
    let y = chars_of(b);
    if x.len() != y.len() {
        return false;
    }
    let n = x.len();
    for i in 0..n
        invariant
            n == x@.len(),
            n == y@.len(),
            x@ == a@,
            y@ == b@,
            forall|j: int| 0 <= j < i ==> x@[j] == y@[j],
    {
        if x[i] != y[i] {
            return false;
        }
    }
    assert(x@ =~= y@);
    true
}

/// Append one character (`String::push`).
#[verifier::external_body]
pub(crate) fn push_char(s: &mut String, c: char)
    ensures
        final(s)@ == old(s)@.push(c),
{
    s.push(c);
}

/// Append a text (`String::push_str`).
#[verifier::external_body]
pub(crate) fn push_text(s: &mut String, t: &str)
    ensures
        final(s)@ == old(s)@ + t@,
{
    s.push_str(t);
}


/// The characters a bearer may not hold are exactly these few code points:
/// U+0000 to U+0020, U+007F to U+00A0, U+1680, U+2000 to U+200A, U+2028,
/// U+2029, U+202F, U+205F and U+3000. Every other character, `.`, letters,
/// digits and all other printable text included, is neither whitespace nor
/// a control character.
pub proof fn whitespace_and_controls_are_few(c: char)
    ensures
        (is_white_space(c) || is_control(c)) <==> {
            ||| (c as u32) <= 0x20
            ||| (0x7f <= (c as u32) && (c as u32) <= 0xa0)
            ||| (c as u32) == 0x1680
            ||| (0x2000 <= (c as u32) && (c as u32) <= 0x200a)
            ||| (c as u32) == 0x2028
            ||| (c as u32) == 0x2029
            ||| (c as u32) == 0x202f
            ||| (c as u32) == 0x205f
            ||| (c as u32) == 0x3000
        },
{
}

} // verus!
