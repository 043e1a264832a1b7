//! Routing and response framing of the HTTP adapter.

use vstd::prelude::*;
use vstd::utf8::{decode_utf8, valid_utf8};

use crate::json::{hex_digits, json_quoted, json_string};
use crate::request::{all_digits, digits_value, parse_usize};
use crate::text::{byte_len, push_char, push_text, same_text, utf8_len};

verus! {

/// The body of the health and readiness routes.
pub open spec fn health_body() -> Seq<char> {
    "{\"status\":\"ok\"}"@
}

/// The body answered for unknown routes.
pub open spec fn not_found_body() -> Seq<char> {
    "{\"error\":\"route_not_found\"}"@
}

/// The envelope answered by the invoke routes: the provider name and the
/// request body, each as a JSON string.
pub open spec fn invoke_body(provider: Seq<char>, body: Seq<char>) -> Seq<char> {
    "{\"schemaVersion\":\"ores.lambda-command.v1\",\"ok\":true,\"provider\":"@ + json_quoted(
        provider,
    ) + ",\"body\":"@ + json_quoted(body) + "}"@
}

pub open spec fn is_health_route(method: Seq<char>, path: Seq<char>) -> bool {
    method == "GET"@ && (path == "/healthz"@ || path == "/readyz"@)
}

pub open spec fn is_invoke_route(method: Seq<char>, path: Seq<char>) -> bool {
    method == "POST"@ && (path == "/invoke"@ || path == "/api/invoke"@)
}

/// The text that `String::from_utf8_lossy` reads from `b`.
pub uninterp spec fn utf8_lossy(b: Seq<u8>) -> Seq<char>;

/// Read bytes as text with `String::from_utf8_lossy`. The contract claims
/// that the result is a function of the bytes (named `utf8_lossy`) and, as
/// the documentation says, the text they encode where they are valid UTF-8;
/// how invalid sequences are replaced is not stated.
#[verifier::external_body]
fn lossy_text(b: &[u8]) -> (t: String)
    ensures
        t@ == utf8_lossy(b@),
        valid_utf8(b@) ==> t@ == decode_utf8(b@),
{
    String::from_utf8_lossy(b).into_owned()
}

/// The invoke routes' answer for `provider` and the request body read as
/// text.
pub fn invoke_envelope(provider: &str, body: &str) -> (envelope: String)
    ensures
        envelope@ == invoke_body(provider@, body@),
{
    let mut out = "{\"schemaVersion\":\"ores.lambda-command.v1\",\"ok\":true,\"provider\":".to_owned();
    let quoted_provider = json_string(provider);
    push_text(&mut out, quoted_provider.as_str());
    push_text(&mut out, ",\"body\":");
    let quoted_body = json_string(body);
    push_text(&mut out, quoted_body.as_str());
    push_text(&mut out, "}");
    assert(out@ =~= invoke_body(provider@, body@));
    out
}

/// Answer a request: the status code and the JSON body.
pub fn route_request(method: &str, path: &str, provider: &str, body: &[u8]) -> (r: (u16, String))
    ensures
        is_health_route(method@, path@) ==> r.0 == 200 && r.1@ == health_body(),
        is_invoke_route(method@, path@) ==> r.0 == 200 && r.1@ == invoke_body(
            provider@,
            utf8_lossy(body@),
        ),
        !is_health_route(method@, path@) && !is_invoke_route(method@, path@) ==> r.0 == 404
            && r.1@ == not_found_body(),
{
    proof {
        reveal_strlit("GET");
        reveal_strlit("POST");
        assert("GET"@ != "POST"@) by {
            assert("GET"@.len() != "POST"@.len());
        }
    }
    let get = same_text(method, "GET");
    let post = same_text(method, "POST");
    if get && (same_text(path, "/healthz") || same_text(path, "/readyz")) {
        (200, "{\"status\":\"ok\"}".to_owned())
    } else if post && (same_text(path, "/invoke") || same_text(path, "/api/invoke")) {
        let text = lossy_text(body);
        let out = invoke_envelope(provider, text.as_str());
        (200, out)
    } else {
        (404, "{\"error\":\"route_not_found\"}".to_owned())
    }
}

/// Decimal digits of `n`, most significant first, without leading zeros.
pub open spec fn decimal(n: nat) -> Seq<char>
    decreases n,
{
    if n < 10 {
        seq![hex_digits()[n as int]]
    } else {
        decimal(n / 10) + seq![hex_digits()[(n % 10) as int]]
    }
}

/// The reason phrase sent with a status code.
pub open spec fn reason_phrase(status: u16) -> Seq<char> {
    if status == 200 {
        "OK"@
    } else {
        "Not Found"@
    }
}

/// A complete HTTP/1.1 response: status line, JSON content type, the body's
/// length in bytes, `connection: close`, and the body.
pub open spec fn response_text(status: u16, body: Seq<char>) -> Seq<char> {
    "HTTP/1.1 "@ + decimal(status as nat) + " "@ + reason_phrase(status)
        + "\r\ncontent-type: application/json\r\ncontent-length: "@ + decimal(utf8_len(body))
        + "\r\nconnection: close\r\n\r\n"@ + body
}

fn decimal_digit(n: usize) -> (c: char)
    requires
        n < 10,
    ensures
        c == hex_digits()[n as int],
{
    match n {
        0 => '0',
        1 => '1',
        2 => '2',
        3 => '3',
        4 => '4',
        5 => '5',
        6 => '6',
        7 => '7',
        8 => '8',
        _ => '9',
    }
}

fn push_decimal(out: &mut String, n: usize)
    ensures
        final(out)@ == old(out)@ + decimal(n as nat),
    decreases n,
{
    if n < 10 {
        push_char(out, decimal_digit(n));
    } else {
        push_decimal(out, n / 10);
        push_char(out, decimal_digit(n % 10));
        assert(final(out)@ =~= old(out)@ + decimal(n as nat));
    }
}

/// Frame `body` as the response with `status`.
pub fn http_response(status: u16, body: &str) -> (response: String)
    ensures
        response@ == response_text(status, body@),
{
    let mut out = "HTTP/1.1 ".to_owned();
    push_decimal(&mut out, status as usize);
    push_text(&mut out, " ");
    if status == 200 {
        push_text(&mut out, "OK");
    } else {
        push_text(&mut out, "Not Found");
    }
    push_text(&mut out, "\r\ncontent-type: application/json\r\ncontent-length: ");
    push_decimal(&mut out, byte_len(body));
    push_text(&mut out, "\r\nconnection: close\r\n\r\n");
    push_text(&mut out, body);
    out
}


/// The numeral written for a length reads back as that length: it is a
/// non-empty run of decimal digits without a leading zero whose base-10
/// value is the number.
pub proof fn decimal_reads_back(n: nat)
    ensures
        decimal(n).len() > 0,
        all_digits(decimal(n)),
        digits_value(decimal(n)) == n,
        decimal(n).len() > 1 ==> decimal(n)[0] != '0',
    decreases n,
{
    let d = decimal(n);
    if n < 10 {
        assert(d.drop_last() =~= Seq::<char>::empty());
        assert(hex_digits()[n as int] as int == 48 + n);
        assert(digits_value(d.drop_last()) == 0);
        assert(digits_value(d) == digits_value(d.drop_last()) * 10 + (d.last() as int - 48));
    } else {
        decimal_reads_back(n / 10);
        let head = decimal(n / 10);
        assert(d.drop_last() =~= head);
        assert(hex_digits()[(n % 10) as int] as int == 48 + n % 10);
        assert(d.last() == hex_digits()[(n % 10) as int]);
        assert(digits_value(d) == digits_value(head) * 10 + (d.last() as int - 48));
        assert(d[0] == head[0]);
        if head.len() == 1 {
            assert(n / 10 < 10) by {
                if n / 10 >= 10 {
                    decimal_reads_back(n / 100);
                    assert(head.len() == decimal(n / 100).len() + 1);
                }
            }
            assert(head[0] == hex_digits()[(n / 10) as int]);
        }
    }
}

/// What the response writes as a content length, the request reader reads
/// back as the same length, for every length a `usize` holds.
pub proof fn content_length_round_trip(n: nat)
    requires
        n <= usize::MAX,
    ensures
        parse_usize(decimal(n)) == Some(n as int),
{
    decimal_reads_back(n);
    assert(decimal(n)[0] != '+');
}


/// The response announces its body's length correctly: the text ends with
/// the body, and right after `content-length: ` stands a run of digits,
/// closed by CR LF, whose base-10 value is the body's length in bytes.
pub proof fn response_announces_body_length(status: u16, body: Seq<char>)
    ensures
        ({
            let t = response_text(status, body);
            exists|k: int, j: int|
                {
                    &&& 16 <= k < j && j + 2 <= t.len()
                    &&& t.subrange(k - 16, k) == "content-length: "@
                    &&& all_digits(#[trigger] t.subrange(k, j))
                    &&& digits_value(t.subrange(k, j)) == utf8_len(body)
                    &&& t.subrange(j, j + 2) == seq!['\r', '\n']
                }
        }),
        response_text(status, body).skip(response_text(status, body).len() - body.len()) == body,
{
    reveal_strlit("\r\ncontent-type: application/json\r\ncontent-length: ");
    reveal_strlit("\r\nconnection: close\r\n\r\n");
    reveal_strlit("content-length: ");
    let t = response_text(status, body);
    let a = "HTTP/1.1 "@ + decimal(status as nat) + " "@ + reason_phrase(status);
    let mid = "\r\ncontent-type: application/json\r\ncontent-length: "@;
    let num = decimal(utf8_len(body));
    let tail = "\r\nconnection: close\r\n\r\n"@;
    assert(t =~= a + mid + num + tail + body);
    decimal_reads_back(utf8_len(body));
    let k: int = (a.len() + mid.len()) as int;
    let j: int = k + num.len();
    assert(t.subrange(k - 16, k) =~= "content-length: "@);
    assert(t.subrange(k, j) =~= num);
    assert(t.subrange(j, j + 2) =~= seq!['\r', '\n']);
    assert(t.skip(t.len() - body.len()) =~= body);
}

} // verus!
