//! Tests of the wire codec: request parsing and response
//! serialization on concrete bytes.
use http_server::http::HttpMethod;
use http_server::request::{request_complete, ParseError, Path, Request};
use http_server::response::Response;
use http_server::text::{dec_u64, parse_u64, trim};

fn req(bytes: &[u8]) -> Result<Request, ParseError> {
    Request::parse(&bytes.to_vec())
}

#[test]
fn parse_simple_get_has_empty_body() {
    let r = req(b"GET /index HTTP/1.1\r\nHost: x\r\n\r\n").unwrap();
    assert_eq!(r.method, HttpMethod::GET);
    assert_eq!(r.path.path, b"/index".to_vec());
    assert_eq!(r.path.query, Vec::<u8>::new());
    assert_eq!(r.body, Vec::<u8>::new());
}

#[test]
fn parse_zero_content_length_has_empty_body() {
    let r = req(b"POST /x HTTP/1.1\r\nContent-Length: 0\r\n\r\n").unwrap();
    assert_eq!(r.body, Vec::<u8>::new());
}

#[test]
fn parse_body_round_trips_byte_for_byte() {
    let r = req(b"POST /files/a HTTP/1.1\r\nContent-Length: 5\r\n\r\nhello").unwrap();
    assert_eq!(r.body, b"hello".to_vec());
}

#[test]
fn parse_short_body_decays_to_empty() {
    // Fewer body bytes than announced: the documented lossy choice is
    // an empty body, not an error.
    let r = req(b"POST /x HTTP/1.1\r\nContent-Length: 10\r\n\r\nabc").unwrap();
    assert_eq!(r.body, Vec::<u8>::new());
}

#[test]
fn parse_keeps_exactly_announced_bytes() {
    let r = req(b"POST /x HTTP/1.1\r\nContent-Length: 3\r\n\r\nabcde").unwrap();
    assert_eq!(r.body, b"abc".to_vec());
}

#[test]
fn parse_missing_target_is_status_line_error() {
    assert_eq!(req(b"GET\r\n\r\n").unwrap_err(), ParseError::StatusLine);
}

#[test]
fn parse_without_any_crlf_is_status_line_error() {
    assert_eq!(req(b"garbage").unwrap_err(), ParseError::StatusLine);
}

#[test]
fn parse_header_without_colon_is_headers_error() {
    assert_eq!(
        req(b"GET / HTTP/1.1\r\nbroken header\r\n\r\n").unwrap_err(),
        ParseError::Headers
    );
}

#[test]
fn parse_unterminated_headers_is_headers_error() {
    assert_eq!(
        req(b"GET / HTTP/1.1\r\nHost: x\r\n").unwrap_err(),
        ParseError::Headers
    );
}

#[test]
fn parse_non_numeric_content_length_is_body_error() {
    assert_eq!(
        req(b"POST /x HTTP/1.1\r\nContent-Length: abc\r\n\r\n").unwrap_err(),
        ParseError::Body
    );
}

#[test]
fn parse_signed_content_length_is_body_error() {
    // The codec is hardened to plain digit strings: a sign prefix is
    // rejected rather than read.
    assert_eq!(
        req(b"POST /x HTTP/1.1\r\nContent-Length: +5\r\n\r\nhello").unwrap_err(),
        ParseError::Body
    );
}

#[test]
fn parse_overflowing_content_length_is_body_error() {
    assert_eq!(
        req(b"POST /x HTTP/1.1\r\nContent-Length: 99999999999999999999\r\n\r\n").unwrap_err(),
        ParseError::Body
    );
}

#[test]
fn headers_are_trimmed_and_last_write_wins() {
    let r = req(b"GET / HTTP/1.1\r\nA:  1 \r\nA: 2\r\nB:\tb value\t\r\n\r\n").unwrap();
    assert_eq!(r.headers.get(&b"A".to_vec()), Some(&b"2".to_vec()));
    assert_eq!(r.headers.get(&b"B".to_vec()), Some(&b"b value".to_vec()));
    assert_eq!(r.headers.get(&b"C".to_vec()), None);
}

#[test]
fn unknown_method_token_is_unsupported() {
    let r = req(b"BREW / HTTP/1.1\r\n\r\n").unwrap();
    assert_eq!(r.method, HttpMethod::Unsupported);
}

#[test]
fn method_tokens_parse() {
    assert_eq!(HttpMethod::parse(&b"GET".to_vec()), HttpMethod::GET);
    assert_eq!(HttpMethod::parse(&b"POST".to_vec()), HttpMethod::POST);
    assert_eq!(HttpMethod::parse(&b"PUT".to_vec()), HttpMethod::PUT);
    assert_eq!(HttpMethod::parse(&b"DELETE".to_vec()), HttpMethod::DELETE);
    assert_eq!(HttpMethod::parse(&b"get".to_vec()), HttpMethod::Unsupported);
}

#[test]
fn path_build_splits_on_first_question_mark() {
    let p = Path::build(b"/a?b=1&c=2".to_vec());
    assert_eq!(p.path, b"/a".to_vec());
    assert_eq!(p.query, b"b=1&c=2".to_vec());
    let q = Path::build(b"/a?b?c".to_vec());
    assert_eq!(q.path, b"/a".to_vec());
    assert_eq!(q.query, b"b?c".to_vec());
    let bare = Path::build(b"/plain".to_vec());
    assert_eq!(bare.path, b"/plain".to_vec());
    assert_eq!(bare.query, Vec::<u8>::new());
}

#[test]
fn clean_header_value_trims_surrounding_whitespace() {
    assert_eq!(
        http_server::request::clean_header_value(&b"  x \t".to_vec()),
        b"x".to_vec()
    );
    assert_eq!(
        http_server::request::clean_header_value(&b" \t ".to_vec()),
        Vec::<u8>::new()
    );
}

#[test]
fn trim_keeps_inner_whitespace() {
    assert_eq!(trim(&b" a b ".to_vec()), b"a b".to_vec());
}

#[test]
fn serialize_bare_response() {
    let r = Response::new(200, b"OK".to_vec(), Vec::new());
    assert_eq!(r.serialize(), b"HTTP/1.1 200 OK\r\n\r\n".to_vec());
}

#[test]
fn serialize_with_headers_and_body() {
    let mut r = Response::new(200, b"OK".to_vec(), b"abc".to_vec());
    r.headers.insert(b"Content-Type".to_vec(), b"text/plain".to_vec());
    r.headers.insert(b"Content-Length".to_vec(), b"3".to_vec());
    assert_eq!(
        r.serialize(),
        b"HTTP/1.1 200 OK\r\nContent-Type: text/plain\r\nContent-Length: 3\r\n\r\nabc".to_vec()
    );
}

#[test]
fn completeness_tracks_headers_and_announced_body() {
    assert!(!request_complete(&b"GET / HT".to_vec()));
    assert!(!request_complete(&b"GET / HTTP/1.1\r\nHost: x\r\n".to_vec()));
    assert!(request_complete(&b"GET / HTTP/1.1\r\nHost: x\r\n\r\n".to_vec()));
    assert!(!request_complete(
        &b"POST /x HTTP/1.1\r\nContent-Length: 5\r\n\r\nhel".to_vec()
    ));
    assert!(request_complete(
        &b"POST /x HTTP/1.1\r\nContent-Length: 5\r\n\r\nhello".to_vec()
    ));
    // Already malformed: reading further cannot help, parsing may
    // fail now.
    assert!(request_complete(&b"GET / HTTP/1.1\r\nbroken\r\n\r\n".to_vec()));
}

#[test]
fn decimal_rendering_is_exact() {
    assert_eq!(dec_u64(0), b"0".to_vec());
    assert_eq!(dec_u64(7), b"7".to_vec());
    assert_eq!(dec_u64(210), b"210".to_vec());
    assert_eq!(dec_u64(u64::MAX), b"18446744073709551615".to_vec());
}

#[test]
fn decimal_parsing_is_exact() {
    assert_eq!(parse_u64(&b"123".to_vec()), Some(123));
    assert_eq!(parse_u64(&b"0".to_vec()), Some(0));
    assert_eq!(parse_u64(&b"".to_vec()), None);
    assert_eq!(parse_u64(&b"+1".to_vec()), None);
    assert_eq!(parse_u64(&b" 1".to_vec()), None);
    assert_eq!(parse_u64(&b"18446744073709551615".to_vec()), Some(u64::MAX));
    assert_eq!(parse_u64(&b"18446744073709551616".to_vec()), None);
}
