use std::sync::Arc;

use trumpet::auth::{fresh_token, is_loopback_host, peer_accepted, token_from_file, BearerTokenInterceptor};
use trumpet::error::Error;

fn interceptor(require: bool) -> BearerTokenInterceptor {
    BearerTokenInterceptor::new(Arc::new("secret-token".to_owned()), require)
}

#[test]
fn bearer_interceptor_rejects_missing_header() {
    let err = interceptor(true).check(None).err().expect("missing header must be rejected");
    assert_eq!(err.message, "missing or invalid bearer token in 'authorization' metadata");
}

#[test]
fn bearer_interceptor_rejects_wrong_token() {
    assert!(interceptor(true).check(Some("Bearer wrong-token")).is_err(), "wrong token must be rejected");
    assert!(interceptor(true).check(Some("secret-token")).is_err(), "the scheme is required");
    assert!(interceptor(true).check(Some("Bearer secret-token ")).is_err(), "no trailing text");
}

#[test]
fn bearer_interceptor_accepts_correct_token() {
    assert!(interceptor(true).check(Some("Bearer secret-token")).is_ok(), "correct token must be accepted");
    assert!(interceptor(true).clone().check(Some("Bearer secret-token")).is_ok());
}

#[test]
fn bearer_interceptor_skips_check_when_disabled() {
    assert!(interceptor(false).check(None).is_ok(), "interceptor must allow all when require_auth=false");
    assert!(interceptor(false).check(Some("garbage")).is_ok());
}

#[test]
fn peer_uid_check() {
    assert!(peer_accepted(true, 1000, Some(1000)));
    assert!(!peer_accepted(true, 1000, Some(0)));
    assert!(!peer_accepted(true, 1000, None));
    assert!(peer_accepted(false, 1000, None));
}

#[test]
fn load_or_create_token_rejects_empty_file() {
    let err = token_from_file("/tmp/t/auth.token", "  \n").err().expect("empty token must be rejected");
    assert!(
        matches!(err, Error::InternalUnexpected { ref reason } if reason.contains("empty")),
        "expected InternalUnexpected mentioning 'empty', got: {err:?}"
    );
    match err {
        Error::InternalUnexpected { reason } => assert_eq!(reason, "auth token at '/tmp/t/auth.token' is empty"),
        _ => unreachable!(),
    }
}

#[test]
fn token_file_content_is_trimmed() {
    assert_eq!(token_from_file("p", "  abc-123\n").unwrap(), "abc-123");
    assert_eq!(token_from_file("p", "x").unwrap(), "x");
}

#[test]
fn load_or_create_token_generates_when_missing() {
    let token = fresh_token();
    assert_eq!(token.len(), 36, "UUID v4 token must be 36 chars, got: {token}");
    assert_eq!(token.matches('-').count(), 4);
    assert_ne!(token, fresh_token());
}

#[test]
fn loopback_hosts_are_recognised() {
    assert!(is_loopback_host("127.0.0.1"));
    assert!(is_loopback_host("localhost"));
    assert!(is_loopback_host("::1"));
    assert!(!is_loopback_host("0.0.0.0"));
    assert!(!is_loopback_host("LOCALHOST"));
}
