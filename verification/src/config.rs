//! Configuration: the sections, their compiled defaults, the semantic
//! validation rules, environment overrides and `$HOME`-relative path
//! resolution.
//!
//! Reading files and the process environment is left to the caller; the
//! functions here take what was read as plain values.

use vstd::prelude::*;
use vstd::string::{StringExecFns, StringSliceAdditionalSpecFns};

use crate::error::Error;
use crate::text::{debug_quoted, decimal, parse_u16, spec_parse_u16, str_debug, u64_to_decimal};
use vstd::string::StrSliceExecFns;
use vstd::utf8::encode_utf8;

verus! {

// ── Sections ─────────────────────────────────────────────────────────────────

/// Network settings of the daemon's listeners.
#[derive(Debug)]
pub struct ServerConfig {
    /// Address the TCP listeners bind to.
    pub host: String,
    /// Port of the HTTP listener.
    pub http_port: u16,
    /// Port of the gRPC listener.
    pub grpc_port: u16,
}

/// Persistence settings.
#[derive(Debug)]
pub struct StorageConfig {
    /// Storage backend name (e.g. `"fs"`).
    pub backend: String,
    /// Directory holding persisted state.
    pub path: String,
    /// Seconds between state snapshots.
    pub snapshot_interval_secs: u64,
}

/// Agent liveness settings.
#[derive(Debug)]
pub struct AgentsConfig {
    /// Seconds between expected agent heartbeats.
    pub heartbeat_interval_secs: u64,
    /// Seconds of silence after which an agent is considered gone.
    pub timeout_secs: u64,
}

/// Settings of the built-in code tools.
#[derive(Debug)]
pub struct CodeToolsConfig {
    /// Sandbox root for all code-tool file access; required by the tools.
    pub workspace_root: Option<String>,
    /// Files larger than this are skipped by scans.
    pub max_file_size_bytes: u64,
    /// Maximum number of files returned by one scan.
    pub max_files_per_page: usize,
    /// Maximum number of matches returned by one search.
    pub max_search_matches: usize,
    /// Directory names never descended into by scans.
    pub walk_skip_dirs: Vec<String>,
}

/// Transport of the MCP server.
#[derive(Clone, Copy, Debug, PartialEq, Eq, Structural)]
pub enum McpTransport {
    /// Standard input and output.
    Stdio,
    /// Streamable HTTP.
    Http,
}

/// MCP server settings.
#[derive(Debug)]
pub struct McpConfig {
    /// Transport the MCP server speaks.
    pub transport: McpTransport,
}

/// Local authentication settings.
#[derive(Debug)]
pub struct SecurityConfig {
    /// File holding the gRPC bearer token.
    pub auth_token_path: String,
}

/// Daemon process settings.
#[derive(Debug)]
pub struct DaemonConfig {
    /// Unix socket path the daemon listens on.
    pub socket_path: String,
    /// Path to the PID file written on startup.
    pub pid_file: String,
}

/// Output format for structured log events.
#[derive(Clone, Copy, Debug, PartialEq, Eq, Structural)]
pub enum LogFormat {
    /// Human-readable plain-text output.
    Text,
    /// Machine-readable JSON output.
    Json,
}

/// Logging configuration.
#[derive(Debug)]
pub struct LoggingConfig {
    /// Tracing level filter string, e.g. `"info"` or `"debug"`.
    pub level: String,
    /// Structured log output format.
    pub format: LogFormat,
}

/// Top-level configuration, composed of section structs.
#[derive(Debug)]
pub struct Config {
    pub server: ServerConfig,
    pub storage: StorageConfig,
    pub agents: AgentsConfig,
    pub code_tools: CodeToolsConfig,
    pub mcp: McpConfig,
    pub security: SecurityConfig,
    /// Daemon process settings.
    pub daemon: DaemonConfig,
    /// Logging settings.
    pub logging: LoggingConfig,
}

// ── Defaults ─────────────────────────────────────────────────────────────────

/// The placeholder socket path of the compiled defaults.
pub open spec fn default_socket_path() -> Seq<char> {
    "/tmp/trumpet/trumpet.sock"@
}

/// The placeholder PID file path of the compiled defaults.
pub open spec fn default_pid_file() -> Seq<char> {
    "/tmp/trumpet/trumpet.pid"@
}

/// The placeholder storage path of the compiled defaults.
pub open spec fn default_storage_path() -> Seq<char> {
    "/tmp/trumpet/state"@
}

/// The placeholder token path of the compiled defaults.
pub open spec fn default_token_path() -> Seq<char> {
    "/tmp/trumpet/auth.token"@
}

impl Default for ServerConfig {
    fn default() -> (r: Self)
        ensures
            r.host@ == "127.0.0.1"@,
            r.http_port == 7600,
            r.grpc_port == 7601,
    {
        ServerConfig { host: String::from_str("127.0.0.1"), http_port: 7600, grpc_port: 7601 }
    }
}

impl Default for StorageConfig {
    fn default() -> (r: Self)
        ensures
            r.backend@ == "fs"@,
            r.path@ == default_storage_path(),
            r.snapshot_interval_secs == 60,
    {
        StorageConfig {
            backend: String::from_str("fs"),
            path: String::from_str("/tmp/trumpet/state"),
            snapshot_interval_secs: 60,
        }
    }
}

impl Default for AgentsConfig {
    fn default() -> (r: Self)
        ensures
            r.heartbeat_interval_secs == 30,
            r.timeout_secs == 90,
    {
        AgentsConfig { heartbeat_interval_secs: 30, timeout_secs: 90 }
    }
}

impl Default for CodeToolsConfig {
    fn default() -> (r: Self)
        ensures
            r.workspace_root is None,
            r.max_file_size_bytes == 1_048_576,
            r.max_files_per_page == 500,
            r.max_search_matches == 200,
            r.walk_skip_dirs@.len() == 2,
            r.walk_skip_dirs@[0]@ == "target"@,
            r.walk_skip_dirs@[1]@ == "node_modules"@,
    {
        let mut skip: Vec<String> = Vec::new();
        skip.push(String::from_str("target"));
        skip.push(String::from_str("node_modules"));
        CodeToolsConfig {
            workspace_root: None,
            max_file_size_bytes: 1_048_576,
            max_files_per_page: 500,
            max_search_matches: 200,
            walk_skip_dirs: skip,
        }
    }
}

impl Default for McpConfig {
    fn default() -> (r: Self)
        ensures
            r.transport == McpTransport::Stdio,
    {
        McpConfig { transport: McpTransport::Stdio }
    }
}

impl Default for SecurityConfig {
    fn default() -> (r: Self)
        ensures
            r.auth_token_path@ == default_token_path(),
    {
        SecurityConfig { auth_token_path: String::from_str("/tmp/trumpet/auth.token") }
    }
}

impl Default for DaemonConfig {
    /// Static placeholder paths; the real ones are resolved from `$HOME`
    /// by [`resolve_paths`].
    fn default() -> (r: Self)
        ensures
            r.socket_path@ == default_socket_path(),
            r.pid_file@ == default_pid_file(),
    {
        DaemonConfig {
            socket_path: String::from_str("/tmp/trumpet/trumpet.sock"),
            pid_file: String::from_str("/tmp/trumpet/trumpet.pid"),
        }
    }
}

impl Default for LoggingConfig {
    fn default() -> (r: Self)
        ensures
            r.level@ == "info"@,
            r.format == LogFormat::Text,
    {
        LoggingConfig { level: String::from_str("info"), format: LogFormat::Text }
    }
}

/// Whether `c` holds the compiled defaults.
pub open spec fn is_default_config(c: Config) -> bool {
    &&& c.server.host@ == "127.0.0.1"@ && c.server.http_port == 7600 && c.server.grpc_port == 7601
    &&& c.storage.backend@ == "fs"@ && c.storage.path@ == default_storage_path()
    &&& c.storage.snapshot_interval_secs == 60
    &&& c.agents.heartbeat_interval_secs == 30 && c.agents.timeout_secs == 90
    &&& c.code_tools.workspace_root is None && c.code_tools.max_file_size_bytes == 1_048_576
    &&& c.code_tools.max_files_per_page == 500 && c.code_tools.max_search_matches == 200
    &&& c.code_tools.walk_skip_dirs@.len() == 2 && c.code_tools.walk_skip_dirs@[0]@ == "target"@
    &&& c.code_tools.walk_skip_dirs@[1]@ == "node_modules"@
    &&& c.mcp.transport == McpTransport::Stdio
    &&& c.security.auth_token_path@ == default_token_path()
    &&& c.daemon.socket_path@ == default_socket_path() && c.daemon.pid_file@ == default_pid_file()
    &&& c.logging.level@ == "info"@ && c.logging.format == LogFormat::Text
}

impl Default for Config {
    fn default() -> (r: Self)
        ensures
            is_default_config(r),
    {
        Config {
            server: ServerConfig::default(),
            storage: StorageConfig::default(),
            agents: AgentsConfig::default(),
            code_tools: CodeToolsConfig::default(),
            mcp: McpConfig::default(),
            security: SecurityConfig::default(),
            daemon: DaemonConfig::default(),
            logging: LoggingConfig::default(),
        }
    }
}

// ── Errors ───────────────────────────────────────────────────────────────────

/// Errors that can occur while loading or validating configuration.
#[derive(Debug)]
pub enum ConfigError {
    /// A config file contains invalid TOML; `reason` is the parser's message.
    InvalidToml { path: String, reason: String },
    /// A required directory does not exist or could not be created.
    MissingDir(String),
    /// The process lacks permission to access a path.
    PermissionDenied(String),
    /// Configuration values failed semantic validation.
    ValidationFailed(String),
    /// A config file could not be read; `reason` is the I/O error's message.
    Io { path: String, reason: String },
    /// An environment variable holds a value of the wrong form.
    InvalidEnvVar { var: String, value: String, expected: String },
}

/// The display text of a configuration error.
pub open spec fn spec_config_error_text(e: ConfigError) -> Seq<char> {
    match e {
        ConfigError::InvalidToml { path, reason } => "invalid TOML in "@ + path@ + ": "@ + reason@,
        ConfigError::MissingDir(p) => "missing directory: "@ + p@,
        ConfigError::PermissionDenied(p) => "permission denied: "@ + p@,
        ConfigError::ValidationFailed(m) => "validation failed: "@ + m@,
        ConfigError::Io { path, reason } => "I/O error reading "@ + path@ + ": "@ + reason@,
        ConfigError::InvalidEnvVar { var, value, expected } => "invalid value for "@ + var@ + ": "@
            + debug_quoted(value@) + " (expected "@ + expected@ + ")"@,
    }
}

/// The library error a configuration error becomes.
pub open spec fn spec_error_from_config(e: ConfigError, out: Error) -> bool {
    match e {
        ConfigError::InvalidToml { path, reason } => out matches Error::ConfigInvalidToml { path: p, reason: r }
            && p@ == path@ && r@ == reason@,
        ConfigError::MissingDir(path) => out matches Error::ConfigMissingDir { path: p } && p@ == path@,
        ConfigError::PermissionDenied(path) => out matches Error::ConfigPermissionDenied { path: p } && p@ == path@,
        ConfigError::ValidationFailed(reason) => out matches Error::ConfigValidationFailed { reason: r }
            && r@ == reason@,
        ConfigError::Io { path, reason } => out matches Error::InternalUnexpected { reason: r }
            && r@ == "reading config file '"@ + path@ + "': "@ + reason@,
        ConfigError::InvalidEnvVar { var, value, expected } => out matches Error::ConfigValidationFailed { reason: r }
            && r@ == "env var "@ + var@ + "="@ + debug_quoted(value@) + ": expected "@ + expected@,
    }
}

impl ConfigError {
    /// The display text of this error.
    pub fn to_string(&self) -> (r: String)
        ensures
            r@ == spec_config_error_text(*self),
    {
        match self {
            ConfigError::InvalidToml { path, reason } => {
                let mut s = String::from_str("invalid TOML in ");
                s.append(path.as_str());
                s.append(": ");
                s.append(reason.as_str());
                s
            },
            ConfigError::MissingDir(p) => {
                let mut s = String::from_str("missing directory: ");
                s.append(p.as_str());
                s
            },
            ConfigError::PermissionDenied(p) => {
                let mut s = String::from_str("permission denied: ");
                s.append(p.as_str());
                s
            },
            ConfigError::ValidationFailed(m) => {
                let mut s = String::from_str("validation failed: ");
                s.append(m.as_str());
                s
            },
            ConfigError::Io { path, reason } => {
                let mut s = String::from_str("I/O error reading ");
                s.append(path.as_str());
                s.append(": ");
                s.append(reason.as_str());
                s
            },
            ConfigError::InvalidEnvVar { var, value, expected } => {
                let mut s = String::from_str("invalid value for ");
                s.append(var.as_str());
                s.append(": ");
                let q = str_debug(value.as_str());
                s.append(q.as_str());
                s.append(" (expected ");
                s.append(expected.as_str());
                s.append(")");
                s
            },
        }
    }
}

impl Error {
    /// The library error a configuration error becomes: file problems map
    /// to the config variants, an unreadable file to an internal error and
    /// a malformed environment variable to a validation failure.
    pub fn from_config(err: ConfigError) -> (r: Error)
        ensures
            spec_error_from_config(err, r),
    {
        match err {
            ConfigError::InvalidToml { path, reason } => Error::ConfigInvalidToml { path, reason },
            ConfigError::MissingDir(path) => Error::ConfigMissingDir { path },
            ConfigError::PermissionDenied(path) => Error::ConfigPermissionDenied { path },
            ConfigError::ValidationFailed(reason) => Error::ConfigValidationFailed { reason },
            ConfigError::Io { path, reason } => {
                let mut s = String::from_str("reading config file '");
                s.append(path.as_str());
                s.append("': ");
                s.append(reason.as_str());
                Error::InternalUnexpected { reason: s }
            },
            ConfigError::InvalidEnvVar { var, value, expected } => {
                let mut s = String::from_str("env var ");
                s.append(var.as_str());
                s.append("=");
                let q = str_debug(value.as_str());
                s.append(q.as_str());
                s.append(": expected ");
                s.append(expected.as_str());
                Error::ConfigValidationFailed { reason: s }
            },
        }
    }
}

// ── Validation ───────────────────────────────────────────────────────────────

/// Why `tracing_subscriber` refuses a level filter string (the text of its
/// parse error), or `None` when it accepts it.
pub uninterp spec fn env_filter_rejection(level: Seq<char>) -> Option<Seq<char>>;

/// Parses `level` as a `tracing_subscriber::EnvFilter` and gives the parse
/// error's text when it is refused.
///
/// The filter grammar is the crate's; the contract names the outcome and
/// states the one case its source settles at once: an empty string is an
/// empty filter, which is accepted.
#[verifier::external_body]
fn env_filter_check(level: &str) -> (r: Option<String>)
    ensures
        match env_filter_rejection(level@) {
            Some(m) => r matches Some(s) && s@ == m,
            None => r is None,
        },
        level@.len() == 0 ==> r is None,
{
    match level.parse::<tracing_subscriber::EnvFilter>() {
        Ok(_) => None,
        Err(e) => Some(e.to_string()),
    }
}

/// The port rule's complaint about `c`, if any.
pub open spec fn ports_problem(c: Config) -> Option<Seq<char>> {
    if c.server.http_port == 0 {
        Some("server.http_port must not be 0"@)
    } else if c.server.grpc_port == 0 {
        Some("server.grpc_port must not be 0"@)
    } else if c.server.http_port == c.server.grpc_port {
        Some("server.http_port and server.grpc_port must differ (both are "@ + decimal(c.server.http_port as nat)
            + ")"@)
    } else {
        None
    }
}

/// The storage rule's complaint about `c`, if any.
pub open spec fn storage_problem(c: Config) -> Option<Seq<char>> {
    if c.storage.snapshot_interval_secs == 0 {
        Some("storage.snapshot_interval_secs must be greater than 0"@)
    } else {
        None
    }
}

/// The agent-liveness rule's complaint about `c`, if any.
pub open spec fn agents_problem(c: Config) -> Option<Seq<char>> {
    if c.agents.heartbeat_interval_secs == 0 {
        Some("agents.heartbeat_interval_secs must be greater than 0"@)
    } else if c.agents.timeout_secs == 0 {
        Some("agents.timeout_secs must be greater than 0"@)
    } else if c.agents.timeout_secs <= c.agents.heartbeat_interval_secs {
        Some("agents.timeout_secs ("@ + decimal(c.agents.timeout_secs as nat)
            + ") must be greater than agents.heartbeat_interval_secs ("@
            + decimal(c.agents.heartbeat_interval_secs as nat) + ")"@)
    } else {
        None
    }
}

/// The code-tools rule's complaint about `c`, if any.
pub open spec fn code_tools_problem(c: Config) -> Option<Seq<char>> {
    if c.code_tools.max_file_size_bytes == 0 {
        Some("code_tools.max_file_size_bytes must be greater than 0"@)
    } else if c.code_tools.max_files_per_page == 0 {
        Some("code_tools.max_files_per_page must be greater than 0"@)
    } else if c.code_tools.max_search_matches == 0 {
        Some("code_tools.max_search_matches must be greater than 0"@)
    } else {
        None
    }
}

/// The logging rule's complaint about `c`, if any.
pub open spec fn logging_problem(c: Config) -> Option<Seq<char>> {
    match env_filter_rejection(c.logging.level@) {
        Some(m) => Some("logging.level "@ + debug_quoted(c.logging.level@) + " is not a valid tracing filter: "@ + m),
        None => None,
    }
}

/// The first complaint about `c`, the rules taken in order: ports,
/// storage, agents, code tools, logging.
pub open spec fn validation_problem(c: Config) -> Option<Seq<char>> {
    if ports_problem(c) is Some {
        ports_problem(c)
    } else if storage_problem(c) is Some {
        storage_problem(c)
    } else if agents_problem(c) is Some {
        agents_problem(c)
    } else if code_tools_problem(c) is Some {
        code_tools_problem(c)
    } else {
        logging_problem(c)
    }
}

/// Whether `r` is the outcome that the complaint `p` calls for.
pub open spec fn outcome_of(p: Option<Seq<char>>, r: Result<(), ConfigError>) -> bool {
    match p {
        None => r is Ok,
        Some(m) => r matches Err(ConfigError::ValidationFailed(s)) && s@ == m,
    }
}

/// Checks the listener ports: both set, and different.
pub fn check_ports(config: &Config) -> (r: Result<(), ConfigError>)
    ensures
        outcome_of(ports_problem(*config), r),
{
    if config.server.http_port == 0 {
        return Err(ConfigError::ValidationFailed(String::from_str("server.http_port must not be 0")));
    }
    if config.server.grpc_port == 0 {
        return Err(ConfigError::ValidationFailed(String::from_str("server.grpc_port must not be 0")));
    }
    if config.server.http_port == config.server.grpc_port {
        let mut s = String::from_str("server.http_port and server.grpc_port must differ (both are ");
        let n = u64_to_decimal(config.server.http_port as u64);
        s.append(n.as_str());
        s.append(")");
        return Err(ConfigError::ValidationFailed(s));
    }
    Ok(())
}

/// Checks that snapshots are taken at a positive interval.
pub fn check_storage(config: &Config) -> (r: Result<(), ConfigError>)
    ensures
        outcome_of(storage_problem(*config), r),
{
    if config.storage.snapshot_interval_secs == 0 {
        return Err(ConfigError::ValidationFailed(
            String::from_str("storage.snapshot_interval_secs must be greater than 0"),
        ));
    }
    Ok(())
}

/// Checks the agent liveness intervals: both positive, and the timeout
/// longer than the heartbeat interval.
pub fn check_agents(config: &Config) -> (r: Result<(), ConfigError>)
    ensures
        outcome_of(agents_problem(*config), r),
{
    if config.agents.heartbeat_interval_secs == 0 {
        return Err(ConfigError::ValidationFailed(
            String::from_str("agents.heartbeat_interval_secs must be greater than 0"),
        ));
    }
    if config.agents.timeout_secs == 0 {
        return Err(ConfigError::ValidationFailed(String::from_str("agents.timeout_secs must be greater than 0")));
    }
    if config.agents.timeout_secs <= config.agents.heartbeat_interval_secs {
        let mut s = String::from_str("agents.timeout_secs (");
        let t = u64_to_decimal(config.agents.timeout_secs);
        s.append(t.as_str());
        s.append(") must be greater than agents.heartbeat_interval_secs (");
        let h = u64_to_decimal(config.agents.heartbeat_interval_secs);
        s.append(h.as_str());
        s.append(")");
        return Err(ConfigError::ValidationFailed(s));
    }
    Ok(())
}

/// Checks the code-tool limits: all positive.
pub fn check_code_tools(config: &Config) -> (r: Result<(), ConfigError>)
    ensures
        outcome_of(code_tools_problem(*config), r),
{
    if config.code_tools.max_file_size_bytes == 0 {
        return Err(ConfigError::ValidationFailed(
            String::from_str("code_tools.max_file_size_bytes must be greater than 0"),
        ));
    }
    if config.code_tools.max_files_per_page == 0 {
        return Err(ConfigError::ValidationFailed(
            String::from_str("code_tools.max_files_per_page must be greater than 0"),
        ));
    }
    if config.code_tools.max_search_matches == 0 {
        return Err(ConfigError::ValidationFailed(
            String::from_str("code_tools.max_search_matches must be greater than 0"),
        ));
    }
    Ok(())
}

/// Checks that the level string is a valid tracing filter.
pub fn check_logging(config: &Config) -> (r: Result<(), ConfigError>)
    ensures
        outcome_of(logging_problem(*config), r),
{
    match env_filter_check(config.logging.level.as_str()) {
        None => Ok(()),
        Some(e) => {
            let mut s = String::from_str("logging.level ");
            let q = str_debug(config.logging.level.as_str());
            s.append(q.as_str());
            s.append(" is not a valid tracing filter: ");
            s.append(e.as_str());
            Err(ConfigError::ValidationFailed(s))
        },
    }
}

/// Validates the semantic constraints on a configuration, reporting the
/// first rule it breaks.
pub fn validate(config: &Config) -> (r: Result<(), ConfigError>)
    ensures
        outcome_of(validation_problem(*config), r),
{
    match check_ports(config) {
        Err(e) => return Err(e),
        Ok(()) => {},
    }
    match check_storage(config) {
        Err(e) => return Err(e),
        Ok(()) => {},
    }
    match check_agents(config) {
        Err(e) => return Err(e),
        Ok(()) => {},
    }
    match check_code_tools(config) {
        Err(e) => return Err(e),
        Ok(()) => {},
    }
    check_logging(config)
}

/// The compiled defaults satisfy every rule on ports, storage, agents and
/// code tools; whether they pass as a whole rests on the level filter
/// alone.
pub proof fn lemma_defaults_meet_numeric_rules(c: Config)
    requires
        is_default_config(c),
    ensures
        ports_problem(c) is None,
        storage_problem(c) is None,
        agents_problem(c) is None,
        code_tools_problem(c) is None,
        validation_problem(c) == logging_problem(c),
{
}

// ── Environment overrides ────────────────────────────────────────────────────

/// The `TRUMPET_*` environment variables that override configuration, as
/// read from the process environment (`None` when unset).
#[derive(Debug)]
pub struct EnvOverrides {
    /// `TRUMPET_SERVER_HOST`
    pub server_host: Option<String>,
    /// `TRUMPET_SERVER_HTTP_PORT`
    pub server_http_port: Option<String>,
    /// `TRUMPET_SERVER_GRPC_PORT`
    pub server_grpc_port: Option<String>,
    /// `TRUMPET_STORAGE_BACKEND`
    pub storage_backend: Option<String>,
    /// `TRUMPET_STORAGE_PATH`
    pub storage_path: Option<String>,
    /// `TRUMPET_LOGGING_LEVEL`
    pub logging_level: Option<String>,
    /// `TRUMPET_LOGGING_FORMAT`
    pub logging_format: Option<String>,
}

/// The text of an override when set, the current text otherwise.
pub open spec fn override_or(o: Option<String>, current: Seq<char>) -> Seq<char> {
    match o {
        Some(v) => v@,
        None => current,
    }
}

/// Whether a port override is set and is not a `u16`.
pub open spec fn bad_port(o: Option<String>) -> bool {
    o matches Some(v) && spec_parse_u16(encode_utf8(v@)) is None
}

/// The port an override sets, or the current one.
pub open spec fn port_override_or(o: Option<String>, current: u16) -> u16 {
    match o {
        Some(v) => spec_parse_u16(encode_utf8(v@)).unwrap(),
        None => current,
    }
}

/// Whether a format override is set and is neither `"text"` nor `"json"`.
pub open spec fn bad_format(o: Option<String>) -> bool {
    o matches Some(v) && v@ != "json"@ && v@ != "text"@
}

/// The format an override sets, or the current one.
pub open spec fn format_override_or(o: Option<String>, current: LogFormat) -> LogFormat {
    match o {
        Some(v) => if v@ == "json"@ { LogFormat::Json } else { LogFormat::Text },
        None => current,
    }
}

/// Whether `a` and `b` agree on every field the environment cannot set.
pub open spec fn same_outside_env(a: Config, b: Config) -> bool {
    &&& a.storage.snapshot_interval_secs == b.storage.snapshot_interval_secs
    &&& a.agents.heartbeat_interval_secs == b.agents.heartbeat_interval_secs
    &&& a.agents.timeout_secs == b.agents.timeout_secs
    &&& a.code_tools.workspace_root == b.code_tools.workspace_root
    &&& a.code_tools.max_file_size_bytes == b.code_tools.max_file_size_bytes
    &&& a.code_tools.max_files_per_page == b.code_tools.max_files_per_page
    &&& a.code_tools.max_search_matches == b.code_tools.max_search_matches
    &&& a.code_tools.walk_skip_dirs@ == b.code_tools.walk_skip_dirs@
    &&& a.mcp.transport == b.mcp.transport
    &&& a.security.auth_token_path@ == b.security.auth_token_path@
    &&& a.daemon.socket_path@ == b.daemon.socket_path@
    &&& a.daemon.pid_file@ == b.daemon.pid_file@
}

/// Whether `e` is the complaint about variable `var` holding `value`.
pub open spec fn is_env_error(e: ConfigError, var: Seq<char>, value: Option<String>, expected: Seq<char>) -> bool {
    &&& e matches ConfigError::InvalidEnvVar { var: v, value: x, expected: w }
    &&& v@ == var && w@ == expected
    &&& value matches Some(val) && x@ == val@
}

/// Applies the `TRUMPET_*` overrides in order: host, HTTP port, gRPC port,
/// storage backend, storage path, logging level, logging format. The first
/// malformed value stops the run with an error; the overrides before it
/// stay applied.
pub fn apply_env_overrides(config: &mut Config, env: &EnvOverrides) -> (r: Result<(), ConfigError>)
    ensures
        same_outside_env(*old(config), *final(config)),
        final(config).server.host@ == override_or(env.server_host, old(config).server.host@),
        if bad_port(env.server_http_port) {
            &&& r matches Err(e) && is_env_error(e, "TRUMPET_SERVER_HTTP_PORT"@, env.server_http_port, "u16 port number"@)
            &&& final(config).server.http_port == old(config).server.http_port
            &&& final(config).server.grpc_port == old(config).server.grpc_port
            &&& final(config).storage.backend@ == old(config).storage.backend@
            &&& final(config).storage.path@ == old(config).storage.path@
            &&& final(config).logging.level@ == old(config).logging.level@
            &&& final(config).logging.format == old(config).logging.format
        } else if bad_port(env.server_grpc_port) {
            &&& r matches Err(e) && is_env_error(e, "TRUMPET_SERVER_GRPC_PORT"@, env.server_grpc_port, "u16 port number"@)
            &&& final(config).server.http_port == port_override_or(env.server_http_port, old(config).server.http_port)
            &&& final(config).server.grpc_port == old(config).server.grpc_port
            &&& final(config).storage.backend@ == old(config).storage.backend@
            &&& final(config).storage.path@ == old(config).storage.path@
            &&& final(config).logging.level@ == old(config).logging.level@
            &&& final(config).logging.format == old(config).logging.format
        } else {
            &&& final(config).server.http_port == port_override_or(env.server_http_port, old(config).server.http_port)
            &&& final(config).server.grpc_port == port_override_or(env.server_grpc_port, old(config).server.grpc_port)
            &&& final(config).storage.backend@ == override_or(env.storage_backend, old(config).storage.backend@)
            &&& final(config).storage.path@ == override_or(env.storage_path, old(config).storage.path@)
            &&& final(config).logging.level@ == override_or(env.logging_level, old(config).logging.level@)
            &&& if bad_format(env.logging_format) {
                &&& r matches Err(e) && is_env_error(e, "TRUMPET_LOGGING_FORMAT"@, env.logging_format, "\"text\" or \"json\""@)
                &&& final(config).logging.format == old(config).logging.format
            } else {
                &&& r is Ok
                &&& final(config).logging.format == format_override_or(env.logging_format, old(config).logging.format)
            }
        },
{
    match &env.server_host {
        Some(v) => {
            config.server.host = v.clone();
        },
        None => {},
    }
    match &env.server_http_port {
        Some(v) => match parse_u16(v.as_str()) {
            Some(p) => {
                config.server.http_port = p;
            },
            None => {
                return Err(ConfigError::InvalidEnvVar {
                    var: String::from_str("TRUMPET_SERVER_HTTP_PORT"),
                    value: v.clone(),
                    expected: String::from_str("u16 port number"),
                });
            },
        },
        None => {},
    }
    match &env.server_grpc_port {
        Some(v) => match parse_u16(v.as_str()) {
            Some(p) => {
                config.server.grpc_port = p;
            },
            None => {
                return Err(ConfigError::InvalidEnvVar {
                    var: String::from_str("TRUMPET_SERVER_GRPC_PORT"),
                    value: v.clone(),
                    expected: String::from_str("u16 port number"),
                });
            },
        },
        None => {},
    }
    match &env.storage_backend {
        Some(v) => {
            config.storage.backend = v.clone();
        },
        None => {},
    }
    match &env.storage_path {
        Some(v) => {
            config.storage.path = v.clone();
        },
        None => {},
    }
    match &env.logging_level {
        Some(v) => {
            config.logging.level = v.clone();
        },
        None => {},
    }
    match &env.logging_format {
        Some(v) => {
            if v.eq(&String::from_str("json")) {
                config.logging.format = LogFormat::Json;
            } else if v.eq(&String::from_str("text")) {
                config.logging.format = LogFormat::Text;
            } else {
                return Err(ConfigError::InvalidEnvVar {
                    var: String::from_str("TRUMPET_LOGGING_FORMAT"),
                    value: v.clone(),
                    expected: String::from_str("\"text\" or \"json\""),
                });
            }
        },
        None => {},
    }
    Ok(())
}

// ── Paths ────────────────────────────────────────────────────────────────────

/// `PathBuf::join` with a relative component: the component is appended
/// after a `/`, which is added only when the base is not empty and does
/// not already end in one.
pub open spec fn path_join(base: Seq<char>, rel: Seq<char>) -> Seq<char> {
    if base.len() == 0 {
        rel
    } else if base.last() == '/' {
        base + rel
    } else {
        base + "/"@ + rel
    }
}

/// Joins a relative component onto a path, as `PathBuf::join` does.
pub fn join_path(base: &str, rel: &str) -> (r: String)
    requires
        !(rel@.len() > 0 && rel@[0] == '/'),
    ensures
        r@ == path_join(base@, rel@),
{
    let n = base.unicode_len();
    if n == 0 {
        return rel.to_owned();
    }
    let mut s = base.to_owned();
    if base.get_char(n - 1) != '/' {
        s.append("/");
    }
    s.append(rel);
    s
}

/// The directory under `home` that holds the daemon's files.
pub open spec fn trumpet_dir(home: Seq<char>) -> Seq<char> {
    path_join(home, ".trumpet"@)
}

/// A path that still holds its compiled placeholder is replaced by its
/// place under the home directory; any other path is kept.
pub open spec fn resolved(current: Seq<char>, placeholder: Seq<char>, home: Seq<char>, name: Seq<char>) -> Seq<char> {
    if current == placeholder {
        path_join(trumpet_dir(home), name)
    } else {
        current
    }
}

/// Resolves the placeholder paths that still hold their compiled defaults
/// against `home`: the socket, the PID file, the storage directory and the
/// token file move under `home/.trumpet`; paths set by files or the
/// environment are kept.
pub fn resolve_paths(config: &mut Config, home: &str)
    ensures
        final(config).daemon.socket_path@ == resolved(old(config).daemon.socket_path@, default_socket_path(), home@, "trumpet.sock"@),
        final(config).daemon.pid_file@ == resolved(old(config).daemon.pid_file@, default_pid_file(), home@, "trumpet.pid"@),
        final(config).storage.path@ == resolved(old(config).storage.path@, default_storage_path(), home@, "state"@),
        final(config).security.auth_token_path@ == resolved(old(config).security.auth_token_path@, default_token_path(), home@, "auth.token"@),
        final(config).server.host@ == old(config).server.host@,
        final(config).server.http_port == old(config).server.http_port,
        final(config).server.grpc_port == old(config).server.grpc_port,
        final(config).storage.backend@ == old(config).storage.backend@,
        final(config).storage.snapshot_interval_secs == old(config).storage.snapshot_interval_secs,
        final(config).agents.heartbeat_interval_secs == old(config).agents.heartbeat_interval_secs,
        final(config).agents.timeout_secs == old(config).agents.timeout_secs,
        final(config).code_tools.workspace_root == old(config).code_tools.workspace_root,
        final(config).code_tools.max_file_size_bytes == old(config).code_tools.max_file_size_bytes,
        final(config).code_tools.max_files_per_page == old(config).code_tools.max_files_per_page,
        final(config).code_tools.max_search_matches == old(config).code_tools.max_search_matches,
        final(config).code_tools.walk_skip_dirs@ == old(config).code_tools.walk_skip_dirs@,
        final(config).mcp.transport == old(config).mcp.transport,
        final(config).logging.level@ == old(config).logging.level@,
        final(config).logging.format == old(config).logging.format,
{
    proof {
        reveal_strlit(".trumpet");
        reveal_strlit("trumpet.sock");
        reveal_strlit("trumpet.pid");
        reveal_strlit("state");
        reveal_strlit("auth.token");
    }
    let base = join_path(home, ".trumpet");
    if config.daemon.socket_path == String::from_str("/tmp/trumpet/trumpet.sock") {
        config.daemon.socket_path = join_path(base.as_str(), "trumpet.sock");
    }
    if config.daemon.pid_file == String::from_str("/tmp/trumpet/trumpet.pid") {
        config.daemon.pid_file = join_path(base.as_str(), "trumpet.pid");
    }
    if config.storage.path == String::from_str("/tmp/trumpet/state") {
        config.storage.path = join_path(base.as_str(), "state");
    }
    if config.security.auth_token_path == String::from_str("/tmp/trumpet/auth.token") {
        config.security.auth_token_path = join_path(base.as_str(), "auth.token");
    }
}

impl Config {
    /// The compiled defaults with the daemon's socket and PID file placed
    /// under `home/.trumpet` (`/tmp/.trumpet` when no home directory is
    /// known).
    pub fn load(home: Option<&str>) -> (r: Result<Config, ConfigError>)
        ensures
            r matches Ok(c) && {
                let h = match home { Some(h) => h@, None => "/tmp"@ };
                &&& c.daemon.socket_path@ == path_join(trumpet_dir(h), "trumpet.sock"@)
                &&& c.daemon.pid_file@ == path_join(trumpet_dir(h), "trumpet.pid"@)
                &&& c.server.http_port == 7600 && c.server.grpc_port == 7601
                &&& c.logging.level@ == "info"@ && c.logging.format == LogFormat::Text
            },
    {
        proof {
            reveal_strlit(".trumpet");
            reveal_strlit("trumpet.sock");
            reveal_strlit("trumpet.pid");
        }
        let mut config = Config::default();
        let h = match home {
            Some(h) => h,
            None => "/tmp",
        };
        let base = join_path(h, ".trumpet");
        config.daemon.socket_path = join_path(base.as_str(), "trumpet.sock");
        config.daemon.pid_file = join_path(base.as_str(), "trumpet.pid");
        Ok(config)
    }
}

} // verus!
