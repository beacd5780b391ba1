use trumpet::error::{CliFormatter, Error, ErrorCode};

/// One instance of every variant for table-driven tests.
fn all_variants() -> Vec<Error> {
    vec![
        Error::DaemonNotRunning,
        Error::DaemonAlreadyRunning { pid: 1234 },
        Error::DaemonBindFailed { path: "/tmp/trumpet.sock".to_owned(), reason: "address in use".to_owned() },
        Error::DaemonShutdownFailed { reason: "timed out".to_owned() },
        Error::ConnectionRefused,
        Error::ConnectionTimeout { duration: "5s".to_owned() },
        Error::ConnectionSocketNotFound { path: "/tmp/trumpet.sock".to_owned() },
        Error::AgentNotFound { name: "worker".to_owned() },
        Error::AgentAlreadyRegistered { name: "worker".to_owned() },
        Error::AgentInvalidName { name: "".to_owned(), reason: "empty name".to_owned() },
        Error::ConversationNotFound { id: "abc-123".to_owned() },
        Error::ConversationNotParticipant { agent: "worker".to_owned(), id: "abc-123".to_owned() },
        Error::ConversationEmptyParticipants,
        Error::ToolNotFound { name: "scan".to_owned() },
        Error::ToolNotFoundById { id: "f47ac10b-58cc-4372-a567-0e02b2c3d479".to_owned() },
        Error::ToolAlreadyRegistered { name: "scan".to_owned() },
        Error::ToolInvalidName { name: "-bad".to_owned(), reason: "leading hyphen".to_owned() },
        Error::ToolInvalidDescription { name: "scan".to_owned(), reason: "empty".to_owned() },
        Error::ToolInvocationFailed { name: "scan".to_owned(), reason: "timeout".to_owned() },
        Error::ToolProviderUnavailable { name: "scan".to_owned() },
        Error::TaskNotFound { id: "abc-123".to_owned() },
        Error::TaskInvalidTransition { task_id: "abc".to_owned(), from: "submitted".to_owned(), to: "completed".to_owned() },
        Error::TaskAlreadyTerminal { task_id: "abc".to_owned(), state: "completed".to_owned() },
        Error::StateSnapshotFailed { reason: "disk full".to_owned() },
        Error::StateRestoreFailed { reason: "corrupt data".to_owned() },
        Error::ConfigInvalidToml { path: "~/.trumpet/config.toml".to_owned(), reason: "unexpected key".to_owned() },
        Error::ConfigMissingDir { path: "~/.trumpet".to_owned() },
        Error::ConfigPermissionDenied { path: "~/.trumpet/config.toml".to_owned() },
        Error::ConfigValidationFailed { reason: "port out of range".to_owned() },
        Error::InternalUnexpected { reason: "unreachable branch".to_owned() },
        Error::InternalBusFull { capacity: 1024 },
    ]
}

#[test]
fn test_every_variant_has_non_empty_code() {
    for err in all_variants() {
        let code = err.code();
        assert!(!code.is_empty(), "code() must not be empty for {err:?}");
    }
}

#[test]
fn test_every_variant_has_non_empty_suggestion() {
    for err in all_variants() {
        let suggestion = err.suggestion();
        assert!(!suggestion.is_empty(), "suggestion() must not be empty for {err:?}");
    }
}

#[test]
fn test_codes_are_screaming_snake_case() {
    for err in all_variants() {
        let code = err.code();
        assert!(
            code.chars().all(|c| c.is_ascii_uppercase() || c.is_ascii_digit() || c == '_'),
            "code '{code}' is not SCREAMING_SNAKE_CASE (variant: {err:?})"
        );
    }
}

#[test]
fn test_codes_are_unique() {
    let codes: Vec<&'static str> = all_variants().iter().map(|e| e.code()).collect();
    let mut unique: Vec<&'static str> = codes.clone();
    unique.sort();
    unique.dedup();
    assert_eq!(codes.len(), unique.len(), "duplicate error codes detected: {codes:?}");
}

#[test]
fn test_daemon_not_running_is_503() {
    assert_eq!(Error::DaemonNotRunning.http_status(), 503);
}

#[test]
fn test_agent_not_found_is_404() {
    assert_eq!(Error::AgentNotFound { name: "x".to_owned() }.http_status(), 404);
}

#[test]
fn test_agent_already_registered_is_409() {
    assert_eq!(Error::AgentAlreadyRegistered { name: "x".to_owned() }.http_status(), 409);
}

#[test]
fn test_config_invalid_toml_is_422() {
    assert_eq!(Error::ConfigInvalidToml { path: "p".to_owned(), reason: "r".to_owned() }.http_status(), 422);
}

#[test]
fn test_internal_unexpected_is_500() {
    assert_eq!(Error::InternalUnexpected { reason: "r".to_owned() }.http_status(), 500);
}

#[test]
fn invalid_input_has_its_own_code_and_status() {
    let err = Error::InvalidInput { reason: "bad url".to_owned() };
    assert_eq!(err.code(), "INVALID_INPUT");
    assert_eq!(err.http_status(), 400);
    assert_eq!(err.to_string(), "invalid input: bad url");
}

#[test]
fn messages_render_their_fields() {
    assert_eq!(Error::AgentNotFound { name: "w".to_owned() }.to_string(), "agent 'w' not found");
    assert_eq!(Error::DaemonAlreadyRunning { pid: 1234 }.to_string(), "daemon is already running (pid 1234)");
    assert_eq!(Error::InternalBusFull { capacity: 1024 }.to_string(), "internal message bus is full (capacity: 1024)");
}

#[test]
fn error_code_trait_agrees_with_inherent_methods() {
    for err in all_variants() {
        assert_eq!(ErrorCode::code(&err), err.code());
        assert_eq!(ErrorCode::suggestion(&err), err.suggestion());
    }
}

fn sample_not_found() -> Error {
    Error::AgentNotFound { name: "my-agent".to_owned() }
}

fn sample_daemon() -> Error {
    Error::DaemonNotRunning
}

#[test]
fn test_json_body_round_trip_no_debug() {
    let err = sample_not_found();
    let body = err.to_json_body(false);
    assert_eq!(body.error.code, "AGENT_NOT_FOUND");
    assert!(!body.error.message.is_empty());
    assert!(!body.error.suggestion.is_empty());
    assert!(body.error.debug.is_none(), "debug must be absent when include_debug is false");
}

#[test]
fn test_json_body_includes_debug_field_when_requested() {
    let body = sample_daemon().to_json_body(true);
    let debug = body.error.debug.expect("debug must be present when include_debug is true");
    assert!(!debug.is_empty());
}

#[test]
fn test_json_body_debug_absent_when_false() {
    let body = sample_daemon().to_json_body(false);
    assert!(body.error.debug.is_none());
}

#[test]
fn test_cli_formatter_matches_expected_format() {
    let err = sample_not_found();
    let rendered = CliFormatter(&err).to_string();
    let code = err.code();
    let message = err.to_string();
    let suggestion = err.suggestion();
    let expected = format!("error[{code}]: {message}\n  -> {suggestion}");
    assert_eq!(rendered, expected);
}

#[test]
fn test_cli_formatter_starts_with_error_prefix() {
    let err = sample_daemon();
    let rendered = CliFormatter(&err).to_string();
    assert!(rendered.starts_with("error["), "CLI output must start with 'error[', got: {rendered:?}");
}

#[test]
fn test_cli_formatter_contains_arrow_suggestion() {
    let err = sample_daemon();
    let rendered = CliFormatter(&err).to_string();
    assert!(rendered.contains("\n  -> "), "CLI output must contain suggestion line, got: {rendered:?}");
}
