use simple_http::handler::respond;
use simple_http::request::parse;
use simple_http::response::AcceptRanges;
use simple_http::response::BuildError;
use simple_http::response::HttpResponse;
use simple_http::response::ResourceLookup;
use simple_http::response::ResponseStatus;

const NOT_FOUND_HTML: &str = "<html><body><h1>NOT FOUND</h1></body></html>";

fn bytes(s: &str) -> Vec<u8> {
    s.as_bytes().to_vec()
}

#[test]
fn existing_file_is_served_with_ok_and_exact_bytes() {
    let req = parse(&bytes("GET /notes.txt HTTP/1.1\r\n\r\n")).unwrap();
    let content: Vec<u8> = vec![0u8, 255, 10, 13, 65];
    let resp = HttpResponse::new(&req, ResourceLookup::File(content.clone())).unwrap();
    assert_eq!(resp.status, ResponseStatus::OK);
    assert_eq!(resp.accept_ranges, AcceptRanges::Bytes);
    assert_eq!(resp.content_length, content.len());
    assert_eq!(resp.response_body, content);
    assert_eq!(resp.current_path, b"notes.txt".to_vec());
    assert_eq!(resp.package_name, b"simple-http".to_vec());
    assert_eq!(resp.package_version, b"0.1.0".to_vec());
}

#[test]
fn missing_target_gets_the_fixed_not_found_page() {
    let req = parse(&bytes("GET /missing.txt HTTP/1.1\r\n\r\n")).unwrap();
    let resp = HttpResponse::new(&req, ResourceLookup::Missing).unwrap();
    assert_eq!(resp.status, ResponseStatus::NotFound);
    assert_eq!(resp.accept_ranges, AcceptRanges::NoRanges);
    assert_eq!(resp.response_body, NOT_FOUND_HTML.as_bytes().to_vec());
    assert_eq!(resp.content_length, NOT_FOUND_HTML.len());
}

#[test]
fn directory_target_gets_the_same_not_found_page() {
    let req = parse(&bytes("GET /docs HTTP/1.1\r\n\r\n")).unwrap();
    let resp = HttpResponse::new(&req, ResourceLookup::NotRegularFile).unwrap();
    assert_eq!(resp.status, ResponseStatus::NotFound);
    assert_eq!(resp.accept_ranges, AcceptRanges::NoRanges);
    assert_eq!(resp.response_body, NOT_FOUND_HTML.as_bytes().to_vec());
}

#[test]
fn failed_read_surfaces_as_build_error() {
    let req = parse(&bytes("GET /locked.txt HTTP/1.1\r\n\r\n")).unwrap();
    let err = HttpResponse::new(&req, ResourceLookup::ReadFailure).unwrap_err();
    assert_eq!(err, BuildError::ResourceRead);
}

#[test]
fn empty_file_serializes_with_content_length_zero() {
    let req = parse(&bytes("GET /empty HTTP/1.1\r\n\r\n")).unwrap();
    let resp = HttpResponse::new(&req, ResourceLookup::File(Vec::new())).unwrap();
    let wire = resp.serialize();
    let text = String::from_utf8(wire).unwrap();
    assert!(text.contains("Content-Length: 0\r\n"));
    assert!(text.ends_with("\r\n\r\n"));
}

#[test]
fn content_length_digits_are_exact() {
    let req = parse(&bytes("GET /big HTTP/1.1\r\n\r\n")).unwrap();
    let content: Vec<u8> = vec![120u8; 1234];
    let resp = HttpResponse::new(&req, ResourceLookup::File(content)).unwrap();
    let text = String::from_utf8(resp.serialize()).unwrap();
    assert!(text.contains("Content-Length: 1234\r\n"));
}

#[test]
fn status_codes_pair_with_their_texts() {
    assert_eq!(ResponseStatus::OK.code(), 200);
    assert_eq!(ResponseStatus::NotFound.code(), 404);
    assert_eq!(ResponseStatus::OK.text(), "200 OK");
    assert_eq!(ResponseStatus::NotFound.text(), "404 Not Found");
    assert_eq!(AcceptRanges::Bytes.text(), "bytes");
    assert_eq!(AcceptRanges::NoRanges.text(), "none");
}

#[test]
fn scenario_existing_index_file() {
    let req = parse(&bytes("GET /index.html HTTP/1.1\r\n\r\n")).unwrap();
    let wire = respond(&req, ResourceLookup::File(bytes("hi"))).unwrap();
    let text = String::from_utf8(wire).unwrap();
    assert!(text.starts_with("HTTP/2.0 200 OK\r\nContent-Length: 2\r\n"));
    assert!(text.ends_with("hi"));
    assert_eq!(
        text,
        "HTTP/2.0 200 OK\r\nContent-Length: 2\r\nAccept-Ranges: bytes\r\n\
         X-Package-Name: simple-http\r\nX-Package-Version: 0.1.0\r\n\r\nhi"
    );
}

#[test]
fn scenario_missing_file() {
    let req = parse(&bytes("GET /missing.txt HTTP/1.1\r\n\r\n")).unwrap();
    let wire = respond(&req, ResourceLookup::Missing).unwrap();
    let text = String::from_utf8(wire).unwrap();
    assert!(text.starts_with("HTTP/2.0 404 Not Found\r\n"));
    assert!(text.contains(&format!("Content-Length: {}\r\n", NOT_FOUND_HTML.len())));
    assert!(text.ends_with(NOT_FOUND_HTML));
}

#[test]
fn scenario_malformed_line_writes_nothing() {
    let outcome = parse(&bytes("GARBAGE\r\n\r\n"));
    assert!(outcome.is_err());
}

#[test]
fn scenario_two_connections_each_get_their_own_file() {
    let req_a = parse(&bytes("GET /a.txt HTTP/1.1\r\n\r\n")).unwrap();
    let req_b = parse(&bytes("GET /b.txt HTTP/1.1\r\n\r\n")).unwrap();
    let wire_a = respond(&req_a, ResourceLookup::File(bytes("alpha"))).unwrap();
    let wire_b = respond(&req_b, ResourceLookup::File(bytes("beta"))).unwrap();
    let text_a = String::from_utf8(wire_a).unwrap();
    let text_b = String::from_utf8(wire_b).unwrap();
    assert!(text_a.ends_with("alpha"));
    assert!(!text_a.contains("beta"));
    assert!(text_b.ends_with("beta"));
    assert!(!text_b.contains("alpha"));
}

#[test]
fn identical_inputs_give_identical_wire_bytes() {
    let input = bytes("GET /same.txt HTTP/1.1\r\nHost: localhost\r\n\r\n");
    let req1 = parse(&input).unwrap();
    let req2 = parse(&input).unwrap();
    let wire1 = respond(&req1, ResourceLookup::File(bytes("payload"))).unwrap();
    let wire2 = respond(&req2, ResourceLookup::File(bytes("payload"))).unwrap();
    assert_eq!(wire1, wire2);
}

#[test]
fn served_version_is_fixed_regardless_of_request_version() {
    let req = parse(&bytes("GET /v HTTP/1.0\r\n\r\n")).unwrap();
    let text = String::from_utf8(respond(&req, ResourceLookup::Missing).unwrap()).unwrap();
    assert!(text.starts_with("HTTP/2.0 "));
}
