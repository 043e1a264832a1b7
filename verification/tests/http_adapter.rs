use happy_wakey_lambdas::{
    decode_merged_preferences, http_response, invoke_envelope, json_string, parse_head,
    route_request, PipelineError, ReadProgress, RequestError, RequestReader, MAX_HEADER_BYTES,
    MAX_REQUEST_BYTES,
};

#[test]
fn json_string_escapes_control_and_quote_characters() {
    assert_eq!(json_string("a\"b\nc"), r#""a\"b\nc""#);
}

#[test]
fn json_string_escapes_every_control_character() {
    assert_eq!(json_string("\\\t\r"), r#""\\\t\r""#);
    assert_eq!(json_string("\u{1}\u{1f}\u{7f}\u{85}"), r#""\u0001\u001f\u007f\u0085""#);
    assert_eq!(json_string("héllo ☃ /"), "\"héllo ☃ /\"");
    assert_eq!(json_string(""), "\"\"");
}

#[test]
fn json_string_reads_back_as_the_same_text() {
    for text in ["", "plain", "quote\" backslash\\ nl\n", "\u{0}\u{8}\u{c}\u{1b}\u{7f}\u{9f}", "ünï ☃ 𝄞"] {
        let back: String = serde_json::from_str(&json_string(text)).expect("valid json");
        assert_eq!(back, text);
    }
}

fn feed(reader: &mut RequestReader, bytes: &[u8]) -> ReadProgress {
    reader.on_chunk(bytes)
}

#[test]
fn reads_a_request_delivered_in_one_chunk() {
    let mut reader = RequestReader::new();
    let raw = b"POST /invoke?x=1 HTTP/1.1\r\nHost: h\r\nContent-Length: 5\r\n\r\nhelloEXTRA";
    match feed(&mut reader, raw) {
        ReadProgress::Complete(request) => {
            assert_eq!(request.method, "POST");
            assert_eq!(request.path, "/invoke");
            assert_eq!(request.body, b"hello");
        }
        _ => panic!("expected a complete request"),
    }
}

#[test]
fn reads_a_request_delivered_in_pieces() {
    let mut reader = RequestReader::new();
    assert!(matches!(feed(&mut reader, b"GET /heal"), ReadProgress::NeedMore));
    assert_eq!(reader.on_end_of_stream(), RequestError::EndedBeforeHeaders);
    assert!(matches!(
        feed(&mut reader, b"thz HTTP/1.1\r\ncontent-LENGTH:  +3 \r\n\r\na"),
        ReadProgress::NeedMore
    ));
    assert_eq!(reader.on_end_of_stream(), RequestError::BodyEndedEarly);
    assert!(RequestError::BodyEndedEarly.is_unexpected_eof());
    match feed(&mut reader, b"bc") {
        ReadProgress::Complete(request) => {
            assert_eq!(request.method, "GET");
            assert_eq!(request.path, "/healthz");
            assert_eq!(request.body, b"abc");
        }
        _ => panic!("expected a complete request"),
    }
}

#[test]
fn request_without_length_has_an_empty_body() {
    let mut reader = RequestReader::new();
    match feed(&mut reader, b"GET /readyz HTTP/1.1\r\n\r\n") {
        ReadProgress::Complete(request) => assert!(request.body.is_empty()),
        _ => panic!("expected a complete request"),
    }
}

#[test]
fn the_first_length_header_counts() {
    let head = parse_head(b"POST /x HTTP/1.1\r\nX-Content-Length: 9\r\nContent-Length: 2\r\nContent-Length: 7\r\n\r\n")
        .expect("head");
    assert_eq!(head.content_length, 2);
    assert_eq!(head.method, "POST");
    assert_eq!(head.path, "/x");
}

#[test]
fn malformed_heads_are_refused() {
    assert_eq!(parse_head(b"\r\n\r\n").err(), Some(RequestError::MissingMethod));
    assert_eq!(parse_head(b"GET\r\n\r\n").err(), Some(RequestError::MissingPath));
    assert_eq!(parse_head(b"  GET \t\r\n\r\n").err(), Some(RequestError::MissingPath));
    assert_eq!(parse_head(b"GET / HTTP/1.1\r\n\xff: 1\r\n\r\n").err(), Some(RequestError::HeadersNotUtf8));
    for bad in ["abc", "-1", "+", "", "1 2", "18446744073709551616"] {
        let raw = format!("GET / HTTP/1.1\r\nContent-Length: {bad}\r\n\r\n");
        assert_eq!(
            parse_head(raw.as_bytes()).err(),
            Some(RequestError::InvalidContentLength),
            "{bad}"
        );
    }
    let largest = format!("GET / HTTP/1.1\r\nContent-Length: {}\r\n\r\n", usize::MAX);
    assert_eq!(parse_head(largest.as_bytes()).unwrap().content_length, usize::MAX);
}

#[test]
fn oversized_requests_are_refused() {
    let mut reader = RequestReader::new();
    let long_head = vec![b'a'; MAX_HEADER_BYTES + 1];
    assert!(matches!(
        feed(&mut reader, &long_head),
        ReadProgress::Failed(RequestError::HeadersTooLarge)
    ));

    let mut reader = RequestReader::new();
    let mut late_end = vec![b'a'; MAX_HEADER_BYTES - 3];
    late_end.extend_from_slice(b"\r\n\r\n");
    assert!(matches!(
        feed(&mut reader, &late_end),
        ReadProgress::Failed(RequestError::HeadersTooLarge)
    ));

    let mut reader = RequestReader::new();
    let huge = vec![b'a'; MAX_REQUEST_BYTES + 1];
    assert!(matches!(
        feed(&mut reader, &huge),
        ReadProgress::Failed(RequestError::RequestTooLarge)
    ));

    let mut reader = RequestReader::new();
    let raw = format!("POST /invoke HTTP/1.1\r\nContent-Length: {}\r\n\r\n", MAX_REQUEST_BYTES);
    assert!(matches!(
        feed(&mut reader, raw.as_bytes()),
        ReadProgress::Failed(RequestError::BodyTooLarge)
    ));
    assert_eq!(RequestError::BodyTooLarge.message(), "body exceeds size limit");
    assert!(!RequestError::BodyTooLarge.is_unexpected_eof());
}

#[test]
fn routes_answer_health_invoke_and_unknown_paths() {
    assert_eq!(route_request("GET", "/healthz", "oci", b""), (200, r#"{"status":"ok"}"#.to_string()));
    assert_eq!(route_request("GET", "/readyz", "oci", b"x"), (200, r#"{"status":"ok"}"#.to_string()));
    assert_eq!(
        route_request("POST", "/api/invoke", "oci", b"{\"a\":1}"),
        (
            200,
            r#"{"schemaVersion":"ores.lambda-command.v1","ok":true,"provider":"oci","body":"{\"a\":1}"}"#
                .to_string()
        )
    );
    assert_eq!(
        route_request("POST", "/invoke", "aws", b"\xffok"),
        (
            200,
            "{\"schemaVersion\":\"ores.lambda-command.v1\",\"ok\":true,\"provider\":\"aws\",\"body\":\"\u{fffd}ok\"}"
                .to_string()
        )
    );
    assert_eq!(
        route_request("GET", "/invoke", "oci", b""),
        (404, r#"{"error":"route_not_found"}"#.to_string())
    );
    assert_eq!(invoke_envelope("p\"", "b"), r#"{"schemaVersion":"ores.lambda-command.v1","ok":true,"provider":"p\"","body":"b"}"#);
}

#[test]
fn responses_carry_the_body_length_in_bytes() {
    assert_eq!(
        http_response(200, r#"{"status":"ok"}"#),
        "HTTP/1.1 200 OK\r\ncontent-type: application/json\r\ncontent-length: 15\r\nconnection: close\r\n\r\n{\"status\":\"ok\"}"
    );
    assert_eq!(
        http_response(404, "é"),
        "HTTP/1.1 404 Not Found\r\ncontent-type: application/json\r\ncontent-length: 2\r\nconnection: close\r\n\r\né"
    );
}

#[test]
fn merged_preferences_must_be_a_json_document() {
    let value = decode_merged_preferences(r#"{"theme":"dark","lanes":{"weather":true,"markets":true}}"#)
        .expect("merged");
    assert_eq!(value["lanes"]["markets"], serde_json::Value::Bool(true));
    assert_eq!(value["theme"], serde_json::Value::String("dark".into()));
    assert_eq!(decode_merged_preferences("{\"theme\":").err(), Some(PipelineError::SyncMerge));
}
