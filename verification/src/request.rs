//! Reading an HTTP/1.1 request from a byte stream: framing, size limits and
//! the request head.
//!
//! The reader is fed the chunks that the connection delivers and says, after
//! each one, whether it needs more, has a complete request, or refuses the
//! stream.

use vstd::prelude::*;
use vstd::utf8::{decode_utf8, valid_utf8};

use crate::text::{chars_of, is_white_space, push_char, white_space};

verus! {

/// Largest request accepted, head and body together, in bytes.
pub const MAX_REQUEST_BYTES: usize = 256 * 1024;

/// Largest request head accepted, in bytes, terminator included.
pub const MAX_HEADER_BYTES: usize = 16 * 1024;

/// Why a request was refused.
#[derive(Clone, Copy, Debug, PartialEq, Eq, Structural)]
pub enum RequestError {
    EndedBeforeHeaders,
    RequestTooLarge,
    HeadersTooLarge,
    HeadersNotUtf8,
    MissingMethod,
    MissingPath,
    InvalidContentLength,
    BodyTooLarge,
    BodyEndedEarly,
}

/// The description of each refusal.
pub open spec fn request_error_text(e: RequestError) -> Seq<char> {
    match e {
        RequestError::EndedBeforeHeaders => "request ended before headers"@,
        RequestError::RequestTooLarge => "request exceeds size limit"@,
        RequestError::HeadersTooLarge => "headers exceed size limit"@,
        RequestError::HeadersNotUtf8 => "headers are not utf-8"@,
        RequestError::MissingMethod => "missing method"@,
        RequestError::MissingPath => "missing path"@,
        RequestError::InvalidContentLength => "invalid content length"@,
        RequestError::BodyTooLarge => "body exceeds size limit"@,
        RequestError::BodyEndedEarly => "body ended early"@,
    }
}

impl RequestError {
    /// Whether the stream ended too early, as opposed to holding bad data.
    pub fn is_unexpected_eof(&self) -> (r: bool)
        ensures
            r == (*self == RequestError::EndedBeforeHeaders || *self
                == RequestError::BodyEndedEarly),
    {
        match self {
            RequestError::EndedBeforeHeaders | RequestError::BodyEndedEarly => true,
            _ => false,
        }
    }

    /// The description of this refusal.
    pub fn message(&self) -> (text: &'static str)
        ensures
            text@ == request_error_text(*self),
    {
        match self {
            RequestError::EndedBeforeHeaders => "request ended before headers",
            RequestError::RequestTooLarge => "request exceeds size limit",
            RequestError::HeadersTooLarge => "headers exceed size limit",
            RequestError::HeadersNotUtf8 => "headers are not utf-8",
            RequestError::MissingMethod => "missing method",
            RequestError::MissingPath => "missing path",
            RequestError::InvalidContentLength => "invalid content length",
            RequestError::BodyTooLarge => "body exceeds size limit",
            RequestError::BodyEndedEarly => "body ended early",
        }
    }
}

// ---------------------------------------------------------------------------
// Framing
// ---------------------------------------------------------------------------

/// `b` holds CR LF CR LF at `p`.
pub open spec fn blank_line_at(b: Seq<u8>, p: int) -> bool {
    &&& 0 <= p
    &&& p + 4 <= b.len()
    &&& b[p] == 13
    &&& b[p + 1] == 10
    &&& b[p + 2] == 13
    &&& b[p + 3] == 10
}

/// The first position at or after `i` where the head's terminating blank line
/// starts.
pub open spec fn blank_line_from(b: Seq<u8>, i: int) -> Option<int>
    decreases b.len() - i,
{
    if i < 0 || i + 4 > b.len() {
        None
    } else if blank_line_at(b, i) {
        Some(i)
    } else {
        blank_line_from(b, i + 1)
    }
}

/// What the bytes received so far say about the head: refused as too large,
/// still incomplete (`None`), or complete, ending at the returned offset.
pub open spec fn head_scan(b: Seq<u8>) -> Result<Option<int>, RequestError> {
    if b.len() > MAX_REQUEST_BYTES {
        Err(RequestError::RequestTooLarge)
    } else {
        match blank_line_from(b, 0) {
            Some(p) => if p + 4 > MAX_HEADER_BYTES {
                Err(RequestError::HeadersTooLarge)
            } else {
                Ok(Some(p + 4))
            },
            None => if b.len() > MAX_HEADER_BYTES {
                Err(RequestError::HeadersTooLarge)
            } else {
                Ok(None)
            },
        }
    }
}

proof fn lemma_blank_line_from_bounds(b: Seq<u8>, i: int)
    ensures
        blank_line_from(b, i) matches Some(p) ==> i <= p && blank_line_at(b, p) && (forall|q: int|
            i <= q < p ==> !blank_line_at(b, q)),
        blank_line_from(b, i) is None && 0 <= i ==> forall|q: int| i <= q ==> !blank_line_at(b, q),
    decreases b.len() - i,
{
    if i < 0 || i + 4 > b.len() {
    } else if blank_line_at(b, i) {
    } else {
        lemma_blank_line_from_bounds(b, i + 1);
    }
}

fn find_blank_line(b: &Vec<u8>) -> (r: Option<usize>)
    ensures
        r matches Some(p) ==> blank_line_from(b@, 0) == Some(p as int),
        r is None ==> blank_line_from(b@, 0) is None,
{
    let n = b.len();
    if n < 4 {
        return None;
    }
    let mut i: usize = 0;
    while i <= n - 4
        invariant
            n == b@.len(),
            4 <= n,
            i <= n - 3,
            blank_line_from(b@, 0) == blank_line_from(b@, i as int),
        decreases n - i,
    {
        if b[i] == 13 && b[i + 1] == 10 && b[i + 2] == 13 && b[i + 3] == 10 {
            return Some(i);
        }
        i = i + 1;
    }
    None
}

/// Decide on the bytes received so far (`head_scan`).
pub fn scan_head(b: &Vec<u8>) -> (r: Result<Option<usize>, RequestError>)
    ensures
        r matches Ok(Some(h)) ==> head_scan(b@) == Ok::<Option<int>, RequestError>(Some(h as int)),
        r matches Ok(None) ==> head_scan(b@) == Ok::<Option<int>, RequestError>(None),
        r matches Err(e) ==> head_scan(b@) == Err::<Option<int>, RequestError>(e),
        r matches Ok(Some(end)) ==> 4 <= end <= b@.len() && end <= MAX_HEADER_BYTES,
{
    proof {
        lemma_blank_line_from_bounds(b@, 0);
    }
    if b.len() > MAX_REQUEST_BYTES {
        return Err(RequestError::RequestTooLarge);
    }
    match find_blank_line(b) {
        Some(p) => {
            if p > MAX_HEADER_BYTES - 4 {
                Err(RequestError::HeadersTooLarge)
            } else {
                Ok(Some(p + 4))
            }
        },
        None => {
            if b.len() > MAX_HEADER_BYTES {
                Err(RequestError::HeadersTooLarge)
            } else {
                Ok(None)
            }
        },
    }
}

// ---------------------------------------------------------------------------
// The request head
// ---------------------------------------------------------------------------

/// The first position in `[i, end)` that is not whitespace, or `end`.
pub open spec fn skip_space(s: Seq<char>, i: int, end: int) -> int
    decreases end - i,
{
    if i >= end {
        end
    } else if is_white_space(s[i]) {
        skip_space(s, i + 1, end)
    } else {
        i
    }
}

/// The first position in `[i, end)` that is whitespace, or `end`.
pub open spec fn token_end(s: Seq<char>, i: int, end: int) -> int
    decreases end - i,
{
    if i >= end {
        end
    } else if is_white_space(s[i]) {
        i
    } else {
        token_end(s, i + 1, end)
    }
}

/// One past the last position in `[start, j)` that is not whitespace, or
/// `start`.
pub open spec fn trim_back(s: Seq<char>, start: int, j: int) -> int
    decreases j - start,
{
    if j <= start {
        start
    } else if is_white_space(s[j - 1]) {
        trim_back(s, start, j - 1)
    } else {
        j
    }
}

/// The first position in `[i, end)` holding `c`.
pub open spec fn first_of(s: Seq<char>, c: char, i: int, end: int) -> Option<int>
    decreases end - i,
{
    if i >= end {
        None
    } else if s[i] == c {
        Some(i)
    } else {
        first_of(s, c, i + 1, end)
    }
}

/// The first position at or after `i` where a CR LF line break starts, or
/// the length of `s`.
pub open spec fn line_break_from(s: Seq<char>, i: int) -> int
    decreases s.len() - i,
{
    if i + 1 < s.len() && s[i] == '\r' && s[i + 1] == '\n' {
        i
    } else if i < s.len() {
        line_break_from(s, i + 1)
    } else {
        s.len() as int
    }
}

/// `content-length`, the header whose value frames the body.
pub open spec fn content_length_name() -> Seq<char> {
    seq!['c', 'o', 'n', 't', 'e', 'n', 't', '-', 'l', 'e', 'n', 'g', 't', 'h']
}

/// `c` equals the lower-case ASCII character `lower`, ignoring ASCII case.
pub open spec fn ascii_caseless_eq(c: char, lower: char) -> bool {
    c == lower || ('A' <= c && c <= 'Z' && c as int + 32 == lower as int)
}

/// `name` is `content-length` in any ASCII case.
pub open spec fn names_content_length(name: Seq<char>) -> bool {
    &&& name.len() == content_length_name().len()
    &&& forall|k: int| 0 <= k < name.len() ==> ascii_caseless_eq(
        #[trigger] name[k],
        content_length_name()[k],
    )
}

/// The value of the header line `s[start..end)` if that line is a
/// `content-length` header (name before the first colon, any ASCII case).
pub open spec fn length_header_value(s: Seq<char>, start: int, end: int) -> Option<(int, int)> {
    match first_of(s, ':', start, end) {
        Some(k) => if names_content_length(s.subrange(start, k)) {
            Some((k + 1, end))
        } else {
            None
        },
        None => None,
    }
}

/// Where the value of the first `content-length` header among the lines
/// that start at `start` lies; `i` is the scanning position in the current
/// line.
pub open spec fn length_header_from(s: Seq<char>, start: int, i: int) -> Option<(int, int)>
    decreases s.len() - i,
{
    if i + 1 < s.len() && s[i] == '\r' && s[i + 1] == '\n' {
        match length_header_value(s, start, i) {
            Some(v) => Some(v),
            None => length_header_from(s, i + 2, i + 2),
        }
    } else if i < s.len() {
        length_header_from(s, start, i + 1)
    } else {
        length_header_value(s, start, s.len() as int)
    }
}

/// The value of a run of decimal digits.
pub open spec fn digits_value(d: Seq<char>) -> int
    decreases d.len(),
{
    if d.len() == 0 {
        0
    } else {
        digits_value(d.drop_last()) * 10 + (d.last() as int - 48)
    }
}

pub open spec fn all_digits(d: Seq<char>) -> bool {
    forall|k: int| 0 <= k < d.len() ==> '0' <= #[trigger] d[k] && d[k] <= '9'
}

/// What `str::parse::<usize>` reads: an optional `+`, then one or more
/// decimal digits whose value fits a `usize`.
pub open spec fn parse_usize(s: Seq<char>) -> Option<int> {
    let d = if s.len() > 0 && s[0] == '+' {
        s.skip(1)
    } else {
        s
    };
    if d.len() > 0 && all_digits(d) && digits_value(d) <= usize::MAX {
        Some(digits_value(d))
    } else {
        None
    }
}

/// The body length that the header lines after the request line (which ends
/// at `line_end`) announce: the trimmed value of the first `content-length`
/// header, or 0 where there is none.
pub open spec fn body_length(t: Seq<char>, line_end: int) -> Result<int, RequestError> {
    if line_end < t.len() {
        match length_header_from(t, line_end + 2, line_end + 2) {
            Some(v) => {
                let v0 = skip_space(t, v.0, v.1);
                let v1 = trim_back(t, v0, v.1);
                match parse_usize(t.subrange(v0, v1)) {
                    Some(n) => Ok(n),
                    None => Err(RequestError::InvalidContentLength),
                }
            },
            None => Ok(0),
        }
    } else {
        Ok(0)
    }
}

/// The parts of a request head that the adapter uses: method, path without
/// its query, and body length.
pub open spec fn head_of_text(t: Seq<char>) -> Result<(Seq<char>, Seq<char>, int), RequestError> {
    let line_end = line_break_from(t, 0);
    let m0 = skip_space(t, 0, line_end);
    let m1 = token_end(t, m0, line_end);
    let p0 = skip_space(t, m1, line_end);
    let p1 = token_end(t, p0, line_end);
    let path_end = match first_of(t, '?', p0, p1) {
        Some(q) => q,
        None => p1,
    };
    if m0 == line_end {
        Err(RequestError::MissingMethod)
    } else if p0 == line_end {
        Err(RequestError::MissingPath)
    } else {
        let length = body_length(t, line_end);
        match length {
            Ok(n) => Ok((t.subrange(m0, m1), t.subrange(p0, path_end), n)),
            Err(e) => Err(e),
        }
    }
}

/// The request head read from its bytes, which must be UTF-8.
pub open spec fn head_of(b: Seq<u8>) -> Result<(Seq<char>, Seq<char>, int), RequestError> {
    if valid_utf8(b) {
        head_of_text(decode_utf8(b))
    } else {
        Err(RequestError::HeadersNotUtf8)
    }
}

/// The method, path and body length of a request head.
pub struct RequestHead {
    pub method: String,
    pub path: String,
    pub content_length: usize,
}

/// Read bytes as UTF-8 with `std::str::from_utf8`: the text they encode
/// where they are valid UTF-8, `None` otherwise.
#[verifier::external_body]
fn utf8_text(b: &[u8]) -> (r: Option<&str>)
    ensures
        r is Some <==> valid_utf8(b@),
        r matches Some(t) ==> t@ == decode_utf8(b@),
{
    std::str::from_utf8(b).ok()
}

fn skip_space_exec(s: &Vec<char>, i: usize, end: usize) -> (r: usize)
    requires
        i <= end <= s@.len(),
    ensures
        r == skip_space(s@, i as int, end as int),
        i <= r <= end,
{
    let mut j = i;
    while j < end && white_space(s[j])
        invariant
            i <= j <= end <= s@.len(),
            skip_space(s@, i as int, end as int) == skip_space(s@, j as int, end as int),
        decreases end - j,
    {
        j = j + 1;
    }
    j
}

fn token_end_exec(s: &Vec<char>, i: usize, end: usize) -> (r: usize)
    requires
        i <= end <= s@.len(),
    ensures
        r == token_end(s@, i as int, end as int),
        i <= r <= end,
{
    let mut j = i;
    while j < end && !white_space(s[j])
        invariant
            i <= j <= end <= s@.len(),
            token_end(s@, i as int, end as int) == token_end(s@, j as int, end as int),
        decreases end - j,
    {
        j = j + 1;
    }
    j
}

fn trim_back_exec(s: &Vec<char>, start: usize, end: usize) -> (r: usize)
    requires
        start <= end <= s@.len(),
    ensures
        r == trim_back(s@, start as int, end as int),
        start <= r <= end,
{
    let mut j = end;
    while j > start && white_space(s[j - 1])
        invariant
            start <= j <= end <= s@.len(),
            trim_back(s@, start as int, end as int) == trim_back(s@, start as int, j as int),
        decreases j - start,
    {
        j = j - 1;
    }
    j
}

fn first_of_exec(s: &Vec<char>, c: char, i: usize, end: usize) -> (r: Option<usize>)
    requires
        i <= end <= s@.len(),
    ensures
        r matches Some(k) ==> first_of(s@, c, i as int, end as int) == Some(k as int) && i <= k
            < end,
        r is None ==> first_of(s@, c, i as int, end as int) is None,
{
    let mut j = i;
    while j < end
        invariant
            i <= j <= end <= s@.len(),
            first_of(s@, c, i as int, end as int) == first_of(s@, c, j as int, end as int),
        decreases end - j,
    {
        if s[j] == c {
            return Some(j);
        }
        j = j + 1;
    }
    None
}

proof fn lemma_line_break_bounds(s: Seq<char>, i: int)
    requires
        0 <= i <= s.len(),
    ensures
        i <= line_break_from(s, i) <= s.len(),
        line_break_from(s, i) < s.len() ==> line_break_from(s, i) + 1 < s.len(),
    decreases s.len() - i,
{
    if i + 1 < s.len() && s[i] == '\r' && s[i + 1] == '\n' {
    } else if i < s.len() {
        lemma_line_break_bounds(s, i + 1);
    }
}

fn line_break_exec(s: &Vec<char>, i: usize) -> (r: usize)
    requires
        i <= s@.len(),
    ensures
        r == line_break_from(s@, i as int),
        i <= r <= s@.len(),
        r < s@.len() ==> r + 1 < s@.len(),
{
    let n = s.len();
    let mut j = i;
    while j < n
        invariant
            i <= j <= n == s@.len(),
            line_break_from(s@, i as int) == line_break_from(s@, j as int),
        decreases n - j,
    {
        if j + 1 < n && s[j] == '\r' && s[j + 1] == '\n' {
            return j;
        }
        j = j + 1;
    }
    proof {
        lemma_line_break_bounds(s@, i as int);
    }
    j
}

fn caseless_eq_exec(c: char, lower: char) -> (r: bool)
    ensures
        r == ascii_caseless_eq(c, lower),
{
    c == lower || ('A' <= c && c <= 'Z' && (c as u32) + 32 == lower as u32)
}

fn names_content_length_exec(s: &Vec<char>, start: usize, end: usize) -> (r: bool)
    requires
        start <= end <= s@.len(),
    ensures
        r == names_content_length(s@.subrange(start as int, end as int)),
{
    let name: Vec<char> = vec!['c', 'o', 'n', 't', 'e', 'n', 't', '-', 'l', 'e', 'n', 'g', 't', 'h'];
    assert(name@ =~= content_length_name());
    if end - start != 14 {
        return false;
    }
    let ghost sub = s@.subrange(start as int, end as int);
    for k in 0..14
        invariant
            end - start == 14,
            start <= end <= s@.len(),
            name@ == content_length_name(),
            sub == s@.subrange(start as int, end as int),
            forall|m: int| 0 <= m < k ==> ascii_caseless_eq(#[trigger] sub[m], content_length_name()[m]),
    {
        if !caseless_eq_exec(s[start + k], name[k]) {
            assert(!ascii_caseless_eq(sub[k as int], content_length_name()[k as int]));
            return false;
        }
    }
    true
}

fn length_header_value_exec(s: &Vec<char>, start: usize, end: usize) -> (r: Option<(usize, usize)>)
    requires
        start <= end <= s@.len(),
    ensures
        match length_header_value(s@, start as int, end as int) {
            Some((a, b)) => r == Some((a as usize, b as usize)) && start < a <= b && b == end,
            None => r is None,
        },
{
    match first_of_exec(s, ':', start, end) {
        Some(k) => {
            if names_content_length_exec(s, start, k) {
                Some((k + 1, end))
            } else {
                None
            }
        },
        None => None,
    }
}

fn length_header_exec(s: &Vec<char>, from: usize) -> (r: Option<(usize, usize)>)
    requires
        from <= s@.len(),
    ensures
        match length_header_from(s@, from as int, from as int) {
            Some((a, b)) => r == Some((a as usize, b as usize)) && from < a <= b <= s@.len(),
            None => r is None,
        },
{
    let n = s.len();
    let mut start = from;
    let mut i = from;
    while i < n
        invariant
            from <= start <= i <= n == s@.len(),
            length_header_from(s@, from as int, from as int) == length_header_from(
                s@,
                start as int,
                i as int,
            ),
        decreases n - i,
    {
        if i + 1 < n && s[i] == '\r' && s[i + 1] == '\n' {
            match length_header_value_exec(s, start, i) {
                Some(v) => {
                    return Some(v);
                },
                None => {
                    start = i + 2;
                    i = i + 2;
                },
            }
        } else {
            i = i + 1;
        }
    }
    length_header_value_exec(s, start, n)
}

proof fn lemma_digits_value_prefix(d: Seq<char>, j: int)
    requires
        all_digits(d),
        0 <= j <= d.len(),
    ensures
        digits_value(d.take(j)) <= digits_value(d),
        digits_value(d) >= 0,
    decreases d.len(),
{
    if d.len() == 0 {
        assert(d.take(j) =~= d);
    } else if j == d.len() {
        assert(d.take(j) =~= d);
        lemma_digits_value_prefix(d.drop_last(), 0);
    } else {
        assert(all_digits(d.drop_last()));
        lemma_digits_value_prefix(d.drop_last(), j);
        assert(d.drop_last().take(j) =~= d.take(j));
    }
}

fn parse_usize_exec(s: &Vec<char>, a: usize, b: usize) -> (r: Option<usize>)
    requires
        a <= b <= s@.len(),
    ensures
        r is None <==> parse_usize(s@.subrange(a as int, b as int)) is None,
        r matches Some(n) ==> parse_usize(s@.subrange(a as int, b as int)) == Some(n as int),
{
    let ghost t = s@.subrange(a as int, b as int);
    let start = if a < b && s[a] == '+' {
        a + 1
    } else {
        a
    };
    let ghost d = s@.subrange(start as int, b as int);
    assert(d =~= (if t.len() > 0 && t[0] == '+' {
        t.skip(1)
    } else {
        t
    }));
    if start == b {
        return None;
    }
    let mut acc: usize = 0;
    let mut i = start;
    while i < b
        invariant
            a <= start <= i <= b <= s@.len(),
            d == s@.subrange(start as int, b as int),
            t == s@.subrange(a as int, b as int),
            d == (if t.len() > 0 && t[0] == '+' {
                t.skip(1)
            } else {
                t
            }),
            forall|k: int| 0 <= k < i - start ==> '0' <= #[trigger] d[k] && d[k] <= '9',
            acc == digits_value(d.take(i - start)),
        decreases b - i,
    {
        let c = s[i];
        if c < '0' || c > '9' {
            assert(!all_digits(d)) by {
                assert(d[i - start] == c);
            }
            return None;
        }
        let digit = (c as u32 - 48) as usize;
        assert(d.take(i - start + 1).drop_last() =~= d.take(i - start));
        assert(d.take(i - start + 1).last() == c);
        if acc > (usize::MAX - digit) / 10 {
            proof {
                assert(acc * 10 + digit > usize::MAX) by (nonlinear_arith)
                    requires
                        acc > (usize::MAX - digit) / 10,
                        digit <= 9,
                ;
                if all_digits(d) {
                    lemma_digits_value_prefix(d, i - start + 1);
                }
            }
            return None;
        }
        assert(acc * 10 + digit <= usize::MAX) by (nonlinear_arith)
            requires
                acc <= (usize::MAX - digit) / 10,
                digit <= 9,
        ;
        acc = acc * 10 + digit;
        i = i + 1;
    }
    assert(d.take(b - start) =~= d);
    Some(acc)
}

fn text_of(s: &Vec<char>, a: usize, b: usize) -> (r: String)
    requires
        a <= b <= s@.len(),
    ensures
        r@ == s@.subrange(a as int, b as int),
{
    let mut out = String::new();
    let mut i = a;
    while i < b
        invariant
            a <= i <= b <= s@.len(),
            out@ == s@.subrange(a as int, i as int),
        decreases b - i,
    {
        push_char(&mut out, s[i]);
        assert(out@ =~= s@.subrange(a as int, i + 1));
        i = i + 1;
    }
    out
}

fn body_length_exec(t: &Vec<char>, line_end: usize) -> (r: Result<usize, RequestError>)
    requires
        line_end <= t@.len(),
        line_end < t@.len() ==> line_end + 1 < t@.len(),
    ensures
        r matches Ok(n) ==> body_length(t@, line_end as int) == Ok::<int, RequestError>(n as int),
        r matches Err(e) ==> body_length(t@, line_end as int) == Err::<int, RequestError>(e),
{
    if line_end < t.len() {
        match length_header_exec(t, line_end + 2) {
            Some((a, b)) => {
                let v0 = skip_space_exec(t, a, b);
                let v1 = trim_back_exec(t, v0, b);
                match parse_usize_exec(t, v0, v1) {
                    Some(n) => Ok(n),
                    None => Err(RequestError::InvalidContentLength),
                }
            },
            None => Ok(0),
        }
    } else {
        Ok(0)
    }
}

/// Read the request head from its bytes (`head_of`).
pub fn parse_head(b: &[u8]) -> (r: Result<RequestHead, RequestError>)
    ensures
        match head_of(b@) {
            Ok((method, path, length)) => r matches Ok(h) && h.method@ == method && h.path@
                == path && h.content_length == length,
            Err(e) => r == Err::<RequestHead, RequestError>(e),
        },
{
    let text = match utf8_text(b) {
        Some(t) => t,
        None => {
            return Err(RequestError::HeadersNotUtf8);
        },
    };
    let t = chars_of(text);
    let line_end = line_break_exec(&t, 0);
    let m0 = skip_space_exec(&t, 0, line_end);
    let m1 = token_end_exec(&t, m0, line_end);
    let p0 = skip_space_exec(&t, m1, line_end);
    let p1 = token_end_exec(&t, p0, line_end);
    if m0 == line_end {
        return Err(RequestError::MissingMethod);
    }
    if p0 == line_end {
        return Err(RequestError::MissingPath);
    }
    let path_end = match first_of_exec(&t, '?', p0, p1) {
        Some(q) => q,
        None => p1,
    };
    let content_length = match body_length_exec(&t, line_end) {
        Ok(n) => n,
        Err(e) => {
            return Err(e);
        },
    };
    Ok(
        RequestHead {
            method: text_of(&t, m0, m1),
            path: text_of(&t, p0, path_end),
            content_length,
        },
    )
}


// ---------------------------------------------------------------------------
// The reader
// ---------------------------------------------------------------------------

/// How the bytes received so far frame a request: refused, head not yet
/// complete (`None`), or method, path, end of head and end of body.
pub open spec fn frame(b: Seq<u8>) -> Result<Option<(Seq<char>, Seq<char>, int, int)>, RequestError> {
    match head_scan(b) {
        Err(e) => Err(e),
        Ok(None) => Ok(None),
        Ok(Some(head_end)) => match head_of(b.take(head_end)) {
            Err(e) => Err(e),
            Ok((method, path, length)) => if head_end + length > MAX_REQUEST_BYTES {
                Err(RequestError::BodyTooLarge)
            } else {
                Ok(Some((method, path, head_end, head_end + length)))
            },
        },
    }
}

/// A request read in full.
pub struct HttpRequest {
    pub method: String,
    pub path: String,
    pub body: Vec<u8>,
}

/// What the reader makes of the stream after a chunk.
pub enum ReadProgress {
    /// More bytes are needed.
    NeedMore,
    /// The request is complete.
    Complete(HttpRequest),
    /// The stream is refused.
    Failed(RequestError),
}

/// With framing `f`, the bytes `b` give `progress`: the request once the
/// body is in, with exactly the bytes between the end of the head and the
/// end of the body as its body; a wish for more before that.
pub open spec fn delivered(
    progress: ReadProgress,
    b: Seq<u8>,
    f: (Seq<char>, Seq<char>, int, int),
) -> bool {
    if b.len() >= f.3 {
        progress matches ReadProgress::Complete(request) && request.method@ == f.0
            && request.path@ == f.1 && request.body@ == b.subrange(f.2, f.3)
    } else {
        progress is NeedMore
    }
}

struct Framing {
    method: String,
    path: String,
    head_end: usize,
    body_end: usize,
}

/// Accumulates the bytes of one request.
pub struct RequestReader {
    bytes: Vec<u8>,
    framing: Option<Framing>,
}

impl RequestReader {
    /// The bytes received so far.
    pub closed spec fn received(self) -> Seq<u8> {
        self.bytes@
    }

    /// The framing, once the head is complete and accepted.
    pub closed spec fn framed(self) -> Option<(Seq<char>, Seq<char>, int, int)> {
        match self.framing {
            Some(f) => Some((f.method@, f.path@, f.head_end as int, f.body_end as int)),
            None => None,
        }
    }

    /// The framing is the one the received bytes give.
    pub open spec fn wf(self) -> bool {
        match self.framed() {
            Some(f) => f.2 <= f.3 <= MAX_REQUEST_BYTES && f.2 <= self.received().len(),
            None => true,
        }
    }

    /// A reader that has received nothing.
    pub fn new() -> (r: Self)
        ensures
            r.wf(),
            r.received() == Seq::<u8>::empty(),
            r.framed() is None,
    {
        RequestReader { bytes: Vec::new(), framing: None }
    }

    fn body_bytes(&self, from: usize, to: usize) -> (body: Vec<u8>)
        requires
            from <= to <= self.received().len(),
        ensures
            body@ == self.received().subrange(from as int, to as int),
    {
        let mut body: Vec<u8> = Vec::new();
        let mut i = from;
        while i < to
            invariant
                from <= i <= to <= self.bytes@.len(),
                body@ == self.bytes@.subrange(from as int, i as int),
            decreases to - i,
        {
            body.push(self.bytes[i]);
            assert(body@ =~= self.bytes@.subrange(from as int, i + 1));
            i = i + 1;
        }
        body
    }

    fn deliver(&self) -> (progress: ReadProgress)
        requires
            self.wf(),
            self.framed() is Some,
        ensures
            delivered(progress, self.received(), self.framed().unwrap()),
    {
        let f = self.framing.as_ref().unwrap();
        if self.bytes.len() >= f.body_end {
            let body = self.body_bytes(f.head_end, f.body_end);
            ReadProgress::Complete(
                HttpRequest { method: f.method.clone(), path: f.path.clone(), body },
            )
        } else {
            ReadProgress::NeedMore
        }
    }

    /// Take the next chunk of the stream.
    pub fn on_chunk(&mut self, chunk: &[u8]) -> (progress: ReadProgress)
        requires
            old(self).wf(),
        ensures
            final(self).wf(),
            final(self).received() == old(self).received() + chunk@,
            match old(self).framed() {
                None => match frame(final(self).received()) {
                    Err(e) => progress == ReadProgress::Failed(e),
                    Ok(None) => progress is NeedMore && final(self).framed() is None,
                    Ok(Some(f)) => final(self).framed() == Some(f) && delivered(
                        progress,
                        final(self).received(),
                        f,
                    ),
                },
                Some(f) => final(self).framed() == Some(f) && delivered(
                    progress,
                    final(self).received(),
                    f,
                ),
            },
    {
        self.bytes.extend_from_slice(chunk);
        assert(self.bytes@ =~= old(self).bytes@ + chunk@);
        if self.framing.is_some() {
            return self.deliver();
        }
        let head_end = match scan_head(&self.bytes) {
            Err(e) => {
                return ReadProgress::Failed(e);
            },
            Ok(None) => {
                return ReadProgress::NeedMore;
            },
            Ok(Some(h)) => h,
        };
        let prefix = self.body_bytes(0, head_end);
        assert(prefix@ =~= self.bytes@.take(head_end as int));
        let head = parse_head(prefix.as_slice());
        match head {
            Err(e) => ReadProgress::Failed(e),
            Ok(h) => {
                if h.content_length > MAX_REQUEST_BYTES - head_end {
                    return ReadProgress::Failed(RequestError::BodyTooLarge);
                }
                self.framing = Some(
                    Framing {
                        method: h.method,
                        path: h.path,
                        head_end,
                        body_end: head_end + h.content_length,
                    },
                );
                self.deliver()
            },
        }
    }

    /// What the end of the stream means now: the head, or the body, ended
    /// early.
    pub fn on_end_of_stream(&self) -> (e: RequestError)
        ensures
            self.framed() is None ==> e == RequestError::EndedBeforeHeaders,
            self.framed() is Some ==> e == RequestError::BodyEndedEarly,
    {
        if self.framing.is_some() {
            RequestError::BodyEndedEarly
        } else {
            RequestError::EndedBeforeHeaders
        }
    }
}


/// The framing of a request respects the adapter's limits: the head ends at
/// the first blank line of the stream, within 16 KiB, and head and body
/// together stay within 256 KiB.
pub proof fn framing_respects_limits(b: Seq<u8>)
    requires
        frame(b) is Ok,
        frame(b).unwrap() is Some,
    ensures
        ({
            let f = frame(b).unwrap().unwrap();
            &&& 4 <= f.2 <= MAX_HEADER_BYTES
            &&& f.2 <= f.3 <= MAX_REQUEST_BYTES
            &&& blank_line_at(b, f.2 - 4)
            &&& forall|q: int| 0 <= q < f.2 - 4 ==> !blank_line_at(b, q)
        }),
{
    lemma_blank_line_from_bounds(b, 0);
    let head_end = head_scan(b).unwrap().unwrap();
    if valid_utf8(b.take(head_end)) {
        lemma_body_length_nonnegative(decode_utf8(b.take(head_end)));
    }
}

proof fn lemma_body_length_nonnegative(t: Seq<char>)
    ensures
        head_of_text(t) matches Ok(h) ==> h.2 >= 0,
{
    let line_end = line_break_from(t, 0);
    if line_end < t.len() {
        match length_header_from(t, line_end + 2, line_end + 2) {
            Some(v) => {
                let v0 = skip_space(t, v.0, v.1);
                let v1 = trim_back(t, v0, v.1);
                let s = t.subrange(v0, v1);
                let d = if s.len() > 0 && s[0] == '+' {
                    s.skip(1)
                } else {
                    s
                };
                if d.len() > 0 && all_digits(d) {
                    lemma_digits_value_prefix(d, 0);
                }
            },
            None => {},
        }
    }
}


/// A Content-Length value is read as `str::parse::<usize>` reads it: every
/// non-empty run of decimal digits (leading zeros included, so `0` and
/// `007` too), with or without one leading `+`, whose value fits a `usize`
/// gives that value; a value text that parses is such a run.
pub proof fn length_values_parse_as_usize(d: Seq<char>)
    ensures
        d.len() > 0 && all_digits(d) && digits_value(d) <= usize::MAX ==> {
            &&& parse_usize(d) == Some(digits_value(d))
            &&& parse_usize(seq!['+'] + d) == Some(digits_value(d))
        },
        parse_usize(d) matches Some(v) ==> {
            let digits = if d[0] == '+' {
                d.skip(1)
            } else {
                d
            };
            &&& digits.len() > 0
            &&& forall|k: int| 0 <= k < digits.len() ==> '0' <= #[trigger] digits[k] && digits[k] <= '9'
            &&& v == digits_value(digits)
            &&& 0 <= v <= usize::MAX
        },
{
    if d.len() > 0 && all_digits(d) {
        lemma_digits_value_prefix(d, 0);
        assert(d[0] != '+');
        assert((seq!['+'] + d).skip(1) =~= d);
    }
    if parse_usize(d) is Some {
        let digits = if d[0] == '+' {
            d.skip(1)
        } else {
            d
        };
        lemma_digits_value_prefix(digits, 0);
    }
}

} // verus!
