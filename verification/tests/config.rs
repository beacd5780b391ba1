use trumpet::config::{
    apply_env_overrides, join_path, resolve_paths, validate, AgentsConfig, CodeToolsConfig, Config, ConfigError,
    EnvOverrides, LogFormat, McpTransport, ServerConfig, StorageConfig,
};
use trumpet::error::Error;

fn valid_config() -> Config {
    Config::default()
}

fn no_env() -> EnvOverrides {
    EnvOverrides {
        server_host: None,
        server_http_port: None,
        server_grpc_port: None,
        storage_backend: None,
        storage_path: None,
        logging_level: None,
        logging_format: None,
    }
}

#[test]
fn default_socket_path_is_placeholder() {
    let config = Config::default();
    assert_eq!(
        config.daemon.socket_path, "/tmp/trumpet/trumpet.sock",
        "default() must return static placeholder socket path"
    );
}

#[test]
fn default_pid_file_is_placeholder() {
    let config = Config::default();
    assert_eq!(config.daemon.pid_file, "/tmp/trumpet/trumpet.pid", "default() must return static placeholder pid path");
}

#[test]
fn validate_accepts_valid_defaults() {
    let config = valid_config();
    assert!(validate(&config).is_ok(), "Config::default() must pass validation");
}

#[test]
fn validate_rejects_duplicate_ports() {
    let mut config = valid_config();
    config.server.http_port = 7600;
    config.server.grpc_port = 7600;
    let err = validate(&config).expect_err("duplicate ports must fail validation");
    assert!(err.to_string().contains("must differ"), "error message should mention ports must differ, got: {}", err.to_string());
}

#[test]
fn validate_rejects_zero_http_port() {
    let mut config = valid_config();
    config.server.http_port = 0;
    let err = validate(&config).expect_err("port 0 must fail validation");
    assert!(err.to_string().contains("http_port"), "error should reference http_port, got: {}", err.to_string());
}

#[test]
fn validate_rejects_zero_grpc_port() {
    let mut config = valid_config();
    config.server.grpc_port = 0;
    let err = validate(&config).expect_err("grpc port 0 must fail validation");
    assert!(err.to_string().contains("grpc_port"), "error should reference grpc_port, got: {}", err.to_string());
}

#[test]
fn validate_rejects_zero_snapshot_interval() {
    let mut config = valid_config();
    config.storage.snapshot_interval_secs = 0;
    let err = validate(&config).expect_err("zero snapshot interval must fail");
    assert!(err.to_string().contains("snapshot_interval_secs"), "got: {}", err.to_string());
}

#[test]
fn validate_rejects_zero_heartbeat_interval() {
    let mut config = valid_config();
    config.agents.heartbeat_interval_secs = 0;
    let err = validate(&config).expect_err("zero heartbeat interval must fail");
    assert!(err.to_string().contains("heartbeat_interval_secs"), "got: {}", err.to_string());
}

#[test]
fn validate_rejects_timeout_not_greater_than_heartbeat() {
    let mut config = valid_config();
    config.agents.heartbeat_interval_secs = 60;
    config.agents.timeout_secs = 60;
    let err = validate(&config).expect_err("timeout == heartbeat must fail");
    assert!(err.to_string().contains("timeout_secs"), "got: {}", err.to_string());
}

#[test]
fn validate_rejects_zero_max_file_size() {
    let mut config = valid_config();
    config.code_tools.max_file_size_bytes = 0;
    let err = validate(&config).expect_err("zero max_file_size_bytes must fail");
    assert!(err.to_string().contains("max_file_size_bytes"), "got: {}", err.to_string());
}

#[test]
fn validate_rejects_invalid_log_level() {
    let mut config = valid_config();
    config.logging.level = "not_a_real_level[[[".into();
    let err = validate(&config).expect_err("invalid log level must fail");
    assert!(err.to_string().contains("logging.level"), "got: {}", err.to_string());
}

#[test]
fn validate_accepts_debug_log_level() {
    let mut config = valid_config();
    config.logging.level = "debug".into();
    assert!(validate(&config).is_ok(), "debug log level must be accepted");
}

#[test]
fn default_server_config_passes_validation() {
    let config = Config { server: ServerConfig::default(), ..Config::default() };
    assert!(validate(&config).is_ok());
}

#[test]
fn default_storage_config_passes_validation() {
    let config = Config { storage: StorageConfig::default(), ..Config::default() };
    assert!(validate(&config).is_ok());
}

#[test]
fn default_agents_config_passes_validation() {
    let config = Config { agents: AgentsConfig::default(), ..Config::default() };
    assert!(validate(&config).is_ok());
}

#[test]
fn default_code_tools_config_passes_validation() {
    let config = Config { code_tools: CodeToolsConfig::default(), ..Config::default() };
    assert!(validate(&config).is_ok());
}

#[test]
fn duplicate_port_message_is_exact() {
    let mut config = valid_config();
    config.server.grpc_port = 7600;
    let err = validate(&config).expect_err("duplicate ports");
    assert_eq!(
        err.to_string(),
        "validation failed: server.http_port and server.grpc_port must differ (both are 7600)"
    );
}

#[test]
fn timeout_message_names_both_values() {
    let mut config = valid_config();
    config.agents.heartbeat_interval_secs = 60;
    config.agents.timeout_secs = 30;
    let err = validate(&config).expect_err("timeout below heartbeat");
    assert_eq!(
        err.to_string(),
        "validation failed: agents.timeout_secs (30) must be greater than agents.heartbeat_interval_secs (60)"
    );
}

#[test]
fn zero_page_limits_are_rejected_in_order() {
    let mut config = valid_config();
    config.code_tools.max_files_per_page = 0;
    config.code_tools.max_search_matches = 0;
    let err = validate(&config).expect_err("zero page size");
    assert!(err.to_string().contains("max_files_per_page"));
}

#[test]
fn partial_defaults_match_documented_values() {
    let config = Config::default();
    assert_eq!(config.server.http_port, 7600);
    assert_eq!(config.server.grpc_port, 7601);
    assert_eq!(config.mcp.transport, McpTransport::Stdio);
    assert_eq!(config.logging.level, "info");
    assert_eq!(config.logging.format, LogFormat::Text);
    assert_eq!(config.agents.heartbeat_interval_secs, 30);
    assert_eq!(config.code_tools.max_file_size_bytes, 1_048_576);
}

#[test]
fn env_var_trumpet_server_host_is_applied() {
    let mut config = Config::default();
    let env = EnvOverrides { server_host: Some("0.0.0.0".to_owned()), ..no_env() };
    apply_env_overrides(&mut config, &env).expect("host override must apply");
    assert_eq!(config.server.host, "0.0.0.0");
}

#[test]
fn env_var_trumpet_logging_format_json_is_applied() {
    let mut config = Config::default();
    let env = EnvOverrides { logging_format: Some("json".to_owned()), ..no_env() };
    apply_env_overrides(&mut config, &env).expect("format override must apply");
    assert_eq!(config.logging.format, LogFormat::Json);
}

#[test]
fn env_var_port_override_is_parsed() {
    let mut config = Config::default();
    let env = EnvOverrides { server_http_port: Some("8080".to_owned()), ..no_env() };
    apply_env_overrides(&mut config, &env).expect("port override must apply");
    assert_eq!(config.server.http_port, 8080);
    assert_eq!(config.server.grpc_port, 7601, "grpc_port must remain default when not overridden");
}

#[test]
fn env_var_bad_port_is_rejected_and_later_overrides_skipped() {
    let mut config = Config::default();
    let env = EnvOverrides {
        server_host: Some("10.0.0.1".to_owned()),
        server_http_port: Some("70000".to_owned()),
        logging_level: Some("debug".to_owned()),
        ..no_env()
    };
    let err = apply_env_overrides(&mut config, &env).expect_err("70000 is not a u16");
    match &err {
        ConfigError::InvalidEnvVar { var, value, expected } => {
            assert_eq!(var, "TRUMPET_SERVER_HTTP_PORT");
            assert_eq!(value, "70000");
            assert_eq!(expected, "u16 port number");
        }
        other => panic!("expected InvalidEnvVar, got {other:?}"),
    }
    assert_eq!(config.server.host, "10.0.0.1", "overrides before the bad one stay applied");
    assert_eq!(config.logging.level, "info", "overrides after the bad one are not applied");
    match Error::from_config(err) {
        Error::ConfigValidationFailed { reason } => {
            assert_eq!(reason, "env var TRUMPET_SERVER_HTTP_PORT=\"70000\": expected u16 port number")
        }
        other => panic!("expected ConfigValidationFailed, got {other:?}"),
    }
}

#[test]
fn env_var_bad_format_is_rejected() {
    let mut config = Config::default();
    let env = EnvOverrides { logging_format: Some("yaml".to_owned()), ..no_env() };
    let err = apply_env_overrides(&mut config, &env).expect_err("yaml is not a format");
    assert!(matches!(err, ConfigError::InvalidEnvVar { .. }));
    assert_eq!(config.logging.format, LogFormat::Text);
}

#[test]
fn storage_path_resolved_under_home() {
    let mut config = Config::default();
    resolve_paths(&mut config, "/home/alice");
    assert_eq!(config.storage.path, "/home/alice/.trumpet/state");
    assert_eq!(config.daemon.socket_path, "/home/alice/.trumpet/trumpet.sock");
    assert_eq!(config.daemon.pid_file, "/home/alice/.trumpet/trumpet.pid");
    assert_eq!(config.security.auth_token_path, "/home/alice/.trumpet/auth.token");
}

#[test]
fn resolve_paths_keeps_configured_paths() {
    let mut config = Config::default();
    config.daemon.socket_path = "/run/custom.sock".to_owned();
    resolve_paths(&mut config, "/home/bob/");
    assert_eq!(config.daemon.socket_path, "/run/custom.sock");
    assert_eq!(config.daemon.pid_file, "/home/bob/.trumpet/trumpet.pid");
}

#[test]
fn join_path_adds_one_separator() {
    assert_eq!(join_path("/a", "b"), "/a/b");
    assert_eq!(join_path("/a/", "b"), "/a/b");
    assert_eq!(join_path("", "b"), "b");
}

#[test]
fn config_errors_map_to_library_errors() {
    match Error::from_config(ConfigError::MissingDir("/x".to_owned())) {
        Error::ConfigMissingDir { path } => assert_eq!(path, "/x"),
        other => panic!("unexpected {other:?}"),
    }
    match Error::from_config(ConfigError::Io { path: "/c".to_owned(), reason: "denied".to_owned() }) {
        Error::InternalUnexpected { reason } => assert_eq!(reason, "reading config file '/c': denied"),
        other => panic!("unexpected {other:?}"),
    }
    assert_eq!(ConfigError::ValidationFailed("bad".to_owned()).to_string(), "validation failed: bad");
    assert_eq!(ConfigError::MissingDir("/d".to_owned()).to_string(), "missing directory: /d");
    assert_eq!(ConfigError::PermissionDenied("/p".to_owned()).to_string(), "permission denied: /p");
}

#[test]
fn load_resolves_paths_under_home() {
    let config = Config::load(Some("/home/carol")).expect("Config::load must succeed");
    assert!(config.daemon.socket_path.ends_with("trumpet.sock"));
    assert!(config.daemon.socket_path.contains(".trumpet"));
    assert!(config.daemon.pid_file.ends_with("trumpet.pid"));
    let fallback = Config::load(None).expect("Config::load must succeed without a home");
    assert_eq!(fallback.daemon.socket_path, "/tmp/.trumpet/trumpet.sock");
}
