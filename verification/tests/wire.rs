use trumpet::error::Error;
use trumpet::wire::{check_status, find_header_end, parse_status_code, split_response};

#[test]
fn check_status_accepts_2xx() {
    assert!(check_status(200, b"{}").is_ok(), "200 must be accepted");
    assert!(check_status(201, b"{}").is_ok(), "201 must be accepted");
}

#[test]
fn check_status_rejects_4xx() {
    let result = check_status(404, b"not found");
    assert!(
        matches!(result, Err(Error::InternalUnexpected { .. })),
        "404 must produce InternalUnexpected"
    );
}

#[test]
fn check_status_reason_names_status_and_body() {
    match check_status(503, b"busy") {
        Err(Error::InternalUnexpected { reason }) => {
            assert_eq!(reason, "daemon returned HTTP 503: busy");
        }
        _ => panic!("503 must be rejected"),
    }
}

#[test]
fn check_status_edges_of_success_range() {
    assert!(check_status(299, b"").is_ok());
    assert!(check_status(300, b"").is_err());
    assert!(check_status(199, b"").is_err());
}

#[test]
fn check_status_replaces_invalid_utf8_in_reason() {
    match check_status(500, &[0x66, 0xff, 0x6f]) {
        Err(Error::InternalUnexpected { reason }) => {
            assert_eq!(reason, "daemon returned HTTP 500: f\u{fffd}o");
        }
        _ => panic!("500 must be rejected"),
    }
}

#[test]
fn parse_status_code_extracts_200() {
    let raw = b"HTTP/1.1 200 OK\r\nContent-Type: application/json\r\n\r\n{}";
    assert_eq!(parse_status_code(raw), Some(200), "must extract 200 from a 200 OK response");
}

#[test]
fn parse_status_code_extracts_404() {
    let raw = b"HTTP/1.1 404 Not Found\r\n\r\n";
    assert_eq!(parse_status_code(raw), Some(404), "must extract 404 from a 404 response");
}

#[test]
fn parse_status_code_rejects_garbage() {
    assert_eq!(parse_status_code(b"HTTP/1.1 abc OK\r\n\r\n"), None);
    assert_eq!(parse_status_code(b"HTTP/1.1\r\n\r\n"), None);
    assert_eq!(parse_status_code(b"HTTP/1.1 99999 Big\r\n\r\n"), None);
    assert_eq!(parse_status_code(b"no line ending"), None);
}

#[test]
fn parse_status_code_without_reason_phrase() {
    assert_eq!(parse_status_code(b"HTTP/1.1 204\r\n\r\n"), Some(204));
}

#[test]
fn find_header_end_locates_separator() {
    let raw = b"HTTP/1.1 200 OK\r\n\r\nbody";
    assert_eq!(find_header_end(raw), Some(15), "must find the header/body separator");
}

#[test]
fn find_header_end_none_without_separator() {
    assert_eq!(find_header_end(b"HTTP/1.1 200 OK\r\n"), None);
    assert_eq!(find_header_end(b""), None);
}

#[test]
fn find_header_end_takes_first_separator() {
    assert_eq!(find_header_end(b"\r\n\r\n\r\n\r\n"), Some(0));
}

#[test]
fn split_response_separates_status_and_body() {
    let raw = b"HTTP/1.1 201 Created\r\n\r\n{\"id\":\"abc\"}".to_vec();
    let (status, body) = split_response(raw).expect("split must succeed");
    assert_eq!(status, 201, "status must be 201");
    assert_eq!(body, b"{\"id\":\"abc\"}", "body must match");
}

#[test]
fn split_response_without_separator_keeps_everything_as_body() {
    let raw = b"HTTP/1.1 404 Not Found\r\n".to_vec();
    let (status, body) = split_response(raw.clone()).unwrap();
    assert_eq!(status, 404);
    assert_eq!(body, raw);
}

#[test]
fn split_response_with_bad_status_defaults_to_200() {
    let raw = b"HTTP/1.1 xyz OK\r\n\r\nbody".to_vec();
    let (status, body) = split_response(raw).unwrap();
    assert_eq!(status, 200);
    assert_eq!(body, b"body");
}
