use simple_http::request::Method;
use simple_http::request::ParseError;
use simple_http::request::Version;
use simple_http::request::parse;

fn bytes(s: &str) -> Vec<u8> {
    s.as_bytes().to_vec()
}

#[test]
fn valid_request_line_extracts_all_three_tokens() {
    let req = parse(&bytes("GET /index.html HTTP/1.1\r\n\r\n")).unwrap();
    assert_eq!(req.method, Method::Get);
    assert_eq!(req.resource.path, b"index.html".to_vec());
    assert_eq!(req.version, Version::V1_1);
    assert_eq!(req.headers.len(), 0);
}

#[test]
fn post_and_other_versions_are_recognized() {
    let req = parse(&bytes("POST /form HTTP/1.0\r\n\r\n")).unwrap();
    assert_eq!(req.method, Method::Post);
    assert_eq!(req.version, Version::V1_0);
    let req = parse(&bytes("GET / HTTP/2.0\r\n\r\n")).unwrap();
    assert_eq!(req.version, Version::V2_0);
}

#[test]
fn unknown_method_is_kept_as_unrecognized() {
    let req = parse(&bytes("BREW /pot HTTP/1.1\r\n\r\n")).unwrap();
    assert_eq!(req.method, Method::Unrecognized);
    assert_eq!(req.resource.path, b"pot".to_vec());
}

#[test]
fn unknown_version_is_malformed() {
    assert_eq!(
        parse(&bytes("GET / HTTP/3.0\r\n\r\n")),
        Err(ParseError::MalformedRequestLine)
    );
}

#[test]
fn one_token_line_is_malformed() {
    assert_eq!(
        parse(&bytes("GARBAGE\r\n\r\n")),
        Err(ParseError::MalformedRequestLine)
    );
}

#[test]
fn two_token_line_is_malformed() {
    assert_eq!(
        parse(&bytes("GET /index.html\r\n\r\n")),
        Err(ParseError::MalformedRequestLine)
    );
}

#[test]
fn four_token_line_is_malformed() {
    assert_eq!(
        parse(&bytes("GET /a HTTP/1.1 extra\r\n\r\n")),
        Err(ParseError::MalformedRequestLine)
    );
}

#[test]
fn empty_input_is_its_own_error() {
    assert_eq!(parse(&Vec::new()), Err(ParseError::EmptyInput));
}

#[test]
fn missing_line_terminator_is_truncated() {
    assert_eq!(
        parse(&bytes("GET / HTTP/1.1")),
        Err(ParseError::TruncatedHeaders)
    );
}

#[test]
fn missing_blank_line_after_headers_is_truncated() {
    assert_eq!(
        parse(&bytes("GET / HTTP/1.1\r\nHost: localhost\r\n")),
        Err(ParseError::TruncatedHeaders)
    );
}

#[test]
fn extra_blanks_between_tokens_are_separators() {
    let req = parse(&bytes("GET  \t /a.txt \t HTTP/1.1 \r\n\r\n")).unwrap();
    assert_eq!(req.method, Method::Get);
    assert_eq!(req.resource.path, b"a.txt".to_vec());
    assert_eq!(req.version, Version::V1_1);
}

#[test]
fn leading_slashes_are_stripped_from_target() {
    let req = parse(&bytes("GET //docs/a.txt HTTP/1.1\r\n\r\n")).unwrap();
    assert_eq!(req.resource.path, b"docs/a.txt".to_vec());
    let req = parse(&bytes("GET / HTTP/1.1\r\n\r\n")).unwrap();
    assert_eq!(req.resource.path, b"".to_vec());
}

#[test]
fn target_is_otherwise_verbatim() {
    let req = parse(&bytes("GET /a%20b?q=1 HTTP/1.1\r\n\r\n")).unwrap();
    assert_eq!(req.resource.path, b"a%20b?q=1".to_vec());
}

#[test]
fn headers_are_parsed_in_order_with_duplicates() {
    let req = parse(&bytes(
        "GET / HTTP/1.1\r\nHost: localhost\r\nAccept: text/html\r\nAccept: text/plain\r\n\r\n",
    ))
    .unwrap();
    assert_eq!(req.headers.len(), 3);
    assert_eq!(req.headers[0].name, b"Host".to_vec());
    assert_eq!(req.headers[0].value, b"localhost".to_vec());
    assert_eq!(req.headers[1].name, b"Accept".to_vec());
    assert_eq!(req.headers[1].value, b"text/html".to_vec());
    assert_eq!(req.headers[2].name, b"Accept".to_vec());
    assert_eq!(req.headers[2].value, b"text/plain".to_vec());
}

#[test]
fn header_line_without_separator_is_skipped() {
    let req = parse(&bytes("GET / HTTP/1.1\r\nnot a header\r\nHost: x\r\n\r\n")).unwrap();
    assert_eq!(req.headers.len(), 1);
    assert_eq!(req.headers[0].name, b"Host".to_vec());
}

#[test]
fn header_value_keeps_only_leading_blanks_stripped() {
    let req = parse(&bytes("GET / HTTP/1.1\r\nA:   padded value \r\nB:tight\r\n\r\n")).unwrap();
    assert_eq!(req.headers[0].value, b"padded value ".to_vec());
    assert_eq!(req.headers[1].value, b"tight".to_vec());
}

#[test]
fn bytes_after_blank_line_are_ignored() {
    let req = parse(&bytes("GET / HTTP/1.1\r\nHost: x\r\n\r\ntrailing body bytes")).unwrap();
    assert_eq!(req.headers.len(), 1);
}
