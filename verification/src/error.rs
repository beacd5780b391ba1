//! The error catalogue shared by the daemon and the CLI.
//!
//! Every variant carries a stable machine-readable code, an HTTP status, a
//! human-readable message and an actionable suggestion. Each of the four is
//! stated as a spec function so that callers can rely on exact texts.

use vstd::prelude::*;

use crate::text::{decimal, u64_to_decimal};
use vstd::string::StringExecFns;

verus! {

/// All structured errors produced by the Trumpet daemon and CLI.
///
/// The enum is intentionally flat so that match arms stay simple.
#[derive(Debug)]
pub enum Error {
    /// The daemon process is not running; most commands require it.
    DaemonNotRunning,
    /// A daemon is already running with the given PID.
    DaemonAlreadyRunning { pid: u32 },
    /// The daemon could not bind to its socket.
    DaemonBindFailed { path: String, reason: String },
    /// The daemon could not shut down cleanly.
    DaemonShutdownFailed { reason: String },
    /// The connection to the daemon was actively refused.
    ConnectionRefused,
    /// The connection attempt timed out.
    ConnectionTimeout { duration: String },
    /// No socket file exists at the expected path.
    ConnectionSocketNotFound { path: String },
    /// No agent with this name is registered.
    AgentNotFound { name: String },
    /// An agent with this name is already registered.
    AgentAlreadyRegistered { name: String },
    /// The provided agent name is syntactically invalid.
    AgentInvalidName { name: String, reason: String },
    /// No conversation with this ID exists.
    ConversationNotFound { id: String },
    /// The agent is not a participant in the conversation.
    ConversationNotParticipant { agent: String, id: String },
    /// A conversation cannot be created without at least one participant.
    ConversationEmptyParticipants,
    /// No tool with this name is registered.
    ToolNotFound { name: String },
    /// No tool with this ID is registered.
    ToolNotFoundById { id: String },
    /// A tool with this name is already registered.
    ToolAlreadyRegistered { name: String },
    /// The provided tool name is syntactically invalid.
    ToolInvalidName { name: String, reason: String },
    /// The provided tool description is empty or invalid.
    ToolInvalidDescription { name: String, reason: String },
    /// Tool invocation failed.
    ToolInvocationFailed { name: String, reason: String },
    /// The agent providing the tool is not connected.
    ToolProviderUnavailable { name: String },
    /// No task with this ID exists.
    TaskNotFound { id: String },
    /// The requested state transition is invalid.
    TaskInvalidTransition { task_id: String, from: String, to: String },
    /// The task is already in a terminal state.
    TaskAlreadyTerminal { task_id: String, state: String },
    /// Writing a state snapshot to persistent storage failed.
    StateSnapshotFailed { reason: String },
    /// Restoring state from a snapshot failed.
    StateRestoreFailed { reason: String },
    /// The config file contains invalid TOML.
    ConfigInvalidToml { path: String, reason: String },
    /// The expected config directory does not exist.
    ConfigMissingDir { path: String },
    /// The process lacks permission to read or write the config path.
    ConfigPermissionDenied { path: String },
    /// The config values are syntactically valid but semantically incorrect.
    ConfigValidationFailed { reason: String },
    /// A caller-supplied value (such as a webhook URL) was rejected.
    InvalidInput { reason: String },
    /// An unexpected internal condition was reached.
    InternalUnexpected { reason: String },
    /// The internal message bus is at capacity.
    InternalBusFull { capacity: usize },
}

/// The stable `SCREAMING_SNAKE_CASE` code of an error.
pub open spec fn spec_code(e: Error) -> Seq<char> {
    match e {
        Error::DaemonNotRunning => "DAEMON_NOT_RUNNING"@,
        Error::DaemonAlreadyRunning { .. } => "DAEMON_ALREADY_RUNNING"@,
        Error::DaemonBindFailed { .. } => "DAEMON_BIND_FAILED"@,
        Error::DaemonShutdownFailed { .. } => "DAEMON_SHUTDOWN_FAILED"@,
        Error::ConnectionRefused => "CONNECTION_REFUSED"@,
        Error::ConnectionTimeout { .. } => "CONNECTION_TIMEOUT"@,
        Error::ConnectionSocketNotFound { .. } => "CONNECTION_SOCKET_NOT_FOUND"@,
        Error::AgentNotFound { .. } => "AGENT_NOT_FOUND"@,
        Error::AgentAlreadyRegistered { .. } => "AGENT_ALREADY_REGISTERED"@,
        Error::AgentInvalidName { .. } => "AGENT_INVALID_NAME"@,
        Error::ConversationNotFound { .. } => "CONVERSATION_NOT_FOUND"@,
        Error::ConversationNotParticipant { .. } => "CONVERSATION_NOT_PARTICIPANT"@,
        Error::ConversationEmptyParticipants => "CONVERSATION_EMPTY_PARTICIPANTS"@,
        Error::ToolNotFound { .. } => "TOOL_NOT_FOUND"@,
        Error::ToolNotFoundById { .. } => "TOOL_NOT_FOUND_BY_ID"@,
        Error::ToolAlreadyRegistered { .. } => "TOOL_ALREADY_REGISTERED"@,
        Error::ToolInvalidName { .. } => "TOOL_INVALID_NAME"@,
        Error::ToolInvalidDescription { .. } => "TOOL_INVALID_DESCRIPTION"@,
        Error::ToolInvocationFailed { .. } => "TOOL_INVOCATION_FAILED"@,
        Error::ToolProviderUnavailable { .. } => "TOOL_PROVIDER_UNAVAILABLE"@,
        Error::TaskNotFound { .. } => "TASK_NOT_FOUND"@,
        Error::TaskInvalidTransition { .. } => "TASK_INVALID_TRANSITION"@,
        Error::TaskAlreadyTerminal { .. } => "TASK_ALREADY_TERMINAL"@,
        Error::StateSnapshotFailed { .. } => "STATE_SNAPSHOT_FAILED"@,
        Error::StateRestoreFailed { .. } => "STATE_RESTORE_FAILED"@,
        Error::ConfigInvalidToml { .. } => "CONFIG_INVALID_TOML"@,
        Error::ConfigMissingDir { .. } => "CONFIG_MISSING_DIR"@,
        Error::ConfigPermissionDenied { .. } => "CONFIG_PERMISSION_DENIED"@,
        Error::ConfigValidationFailed { .. } => "CONFIG_VALIDATION_FAILED"@,
        Error::InvalidInput { .. } => "INVALID_INPUT"@,
        Error::InternalUnexpected { .. } => "INTERNAL_UNEXPECTED"@,
        Error::InternalBusFull { .. } => "INTERNAL_BUS_FULL"@,
    }
}

/// The HTTP status most appropriate for an error class.
pub open spec fn spec_http_status(e: Error) -> u16 {
    match e {
        Error::DaemonNotRunning => 503,
        Error::DaemonAlreadyRunning { .. } => 409,
        Error::DaemonBindFailed { .. } => 502,
        Error::DaemonShutdownFailed { .. } => 503,
        Error::ConnectionRefused => 502,
        Error::ConnectionTimeout { .. } => 502,
        Error::ConnectionSocketNotFound { .. } => 502,
        Error::AgentNotFound { .. } => 404,
        Error::AgentAlreadyRegistered { .. } => 409,
        Error::AgentInvalidName { .. } => 422,
        Error::ConversationNotFound { .. } => 404,
        Error::ConversationNotParticipant { .. } => 403,
        Error::ConversationEmptyParticipants => 422,
        Error::ToolNotFound { .. } => 404,
        Error::ToolNotFoundById { .. } => 404,
        Error::ToolAlreadyRegistered { .. } => 409,
        Error::ToolInvalidName { .. } => 422,
        Error::ToolInvalidDescription { .. } => 422,
        Error::ToolInvocationFailed { .. } => 500,
        Error::ToolProviderUnavailable { .. } => 503,
        Error::TaskNotFound { .. } => 404,
        Error::TaskInvalidTransition { .. } => 422,
        Error::TaskAlreadyTerminal { .. } => 409,
        Error::StateSnapshotFailed { .. } => 500,
        Error::StateRestoreFailed { .. } => 500,
        Error::ConfigInvalidToml { .. } => 422,
        Error::ConfigMissingDir { .. } => 404,
        Error::ConfigPermissionDenied { .. } => 403,
        Error::ConfigValidationFailed { .. } => 422,
        Error::InvalidInput { .. } => 400,
        Error::InternalUnexpected { .. } => 500,
        Error::InternalBusFull { .. } => 500,
    }
}

/// The human-readable message of an error (its display text).
pub open spec fn spec_message(e: Error) -> Seq<char> {
    match e {
        Error::DaemonNotRunning => "daemon is not running"@,
        Error::DaemonAlreadyRunning { pid } => "daemon is already running (pid "@ + decimal(pid as nat) + ")"@,
        Error::DaemonBindFailed { path, reason } => "daemon failed to bind socket at '"@ + path@ + "': "@ + reason@,
        Error::DaemonShutdownFailed { reason } => "daemon shutdown failed: "@ + reason@,
        Error::ConnectionRefused => "connection refused by daemon"@,
        Error::ConnectionTimeout { duration } => "connection timed out after "@ + duration@,
        Error::ConnectionSocketNotFound { path } => "daemon socket not found at '"@ + path@ + "'"@,
        Error::AgentNotFound { name } => "agent '"@ + name@ + "' not found"@,
        Error::AgentAlreadyRegistered { name } => "agent '"@ + name@ + "' is already registered"@,
        Error::AgentInvalidName { name, reason } => "agent name '"@ + name@ + "' is invalid: "@ + reason@,
        Error::ConversationNotFound { id } => "conversation '"@ + id@ + "' not found"@,
        Error::ConversationNotParticipant { agent, id } => "agent '"@ + agent@ + "' is not a participant in conversation '"@ + id@ + "'"@,
        Error::ConversationEmptyParticipants => "conversation must have at least one participant"@,
        Error::ToolNotFound { name } => "tool '"@ + name@ + "' not found"@,
        Error::ToolNotFoundById { id } => "tool with id '"@ + id@ + "' not found"@,
        Error::ToolAlreadyRegistered { name } => "tool '"@ + name@ + "' is already registered"@,
        Error::ToolInvalidName { name, reason } => "tool name '"@ + name@ + "' is invalid: "@ + reason@,
        Error::ToolInvalidDescription { name, reason } => "tool '"@ + name@ + "' has invalid description: "@ + reason@,
        Error::ToolInvocationFailed { name, reason } => "tool invocation failed for '"@ + name@ + "': "@ + reason@,
        Error::ToolProviderUnavailable { name } => "tool provider unavailable for '"@ + name@ + "'"@,
        Error::TaskNotFound { id } => "task '"@ + id@ + "' not found"@,
        Error::TaskInvalidTransition { task_id, from, to } => "invalid task transition for '"@ + task_id@ + "': "@ + from@ + " -> "@ + to@,
        Error::TaskAlreadyTerminal { task_id, state } => "task '"@ + task_id@ + "' is already terminal ("@ + state@ + ")"@,
        Error::StateSnapshotFailed { reason } => "state snapshot failed: "@ + reason@,
        Error::StateRestoreFailed { reason } => "state restore failed: "@ + reason@,
        Error::ConfigInvalidToml { path, reason } => "invalid TOML in config file '"@ + path@ + "': "@ + reason@,
        Error::ConfigMissingDir { path } => "config directory not found: '"@ + path@ + "'"@,
        Error::ConfigPermissionDenied { path } => "permission denied accessing config at '"@ + path@ + "'"@,
        Error::ConfigValidationFailed { reason } => "config validation failed: "@ + reason@,
        Error::InvalidInput { reason } => "invalid input: "@ + reason@,
        Error::InternalUnexpected { reason } => "internal error: "@ + reason@,
        Error::InternalBusFull { capacity } => "internal message bus is full (capacity: "@ + decimal(capacity as nat) + ")"@,
    }
}

/// The actionable suggestion attached to an error.
pub open spec fn spec_suggestion(e: Error) -> Seq<char> {
    match e {
        Error::DaemonNotRunning => "run `trumpet start` to start the daemon"@,
        Error::DaemonAlreadyRunning { pid } => "stop the running daemon first: `trumpet stop` (pid "@ + decimal(pid as nat) + ")"@,
        Error::DaemonBindFailed { path, reason: _ } => "check that '"@ + path@ + "' is writable and no other process holds the socket"@,
        Error::DaemonShutdownFailed { reason: _ } => "try `trumpet stop --force` or manually kill the daemon process"@,
        Error::ConnectionRefused => "verify the daemon is running with `trumpet status`"@,
        Error::ConnectionTimeout { duration: _ } => "check daemon load with `trumpet status`; try again or restart with `trumpet restart`"@,
        Error::ConnectionSocketNotFound { path } => "start the daemon with `trumpet start`; expected socket at '"@ + path@ + "'"@,
        Error::AgentNotFound { name } => "list registered agents with `trumpet agent list`; '"@ + name@ + "' was not found"@,
        Error::AgentAlreadyRegistered { name } => "unregister the existing agent first: `trumpet agent remove "@ + name@ + "`"@,
        Error::AgentInvalidName { name: _, reason: _ } => "agent names must be non-empty alphanumeric strings (hyphens allowed)"@,
        Error::ConversationNotFound { id } => "list conversations with `trumpet chat list`; '"@ + id@ + "' was not found"@,
        Error::ConversationNotParticipant { agent, id } => "add '"@ + agent@ + "' to conversation '"@ + id@ + "' before sending messages"@,
        Error::ConversationEmptyParticipants => "provide at least one agent name when creating a conversation"@,
        Error::ToolNotFound { name } => "list registered tools with GET /tools; '"@ + name@ + "' was not found"@,
        Error::ToolNotFoundById { id } => "no tool with id '"@ + id@ + "'; list registered tools with GET /tools"@,
        Error::ToolAlreadyRegistered { name } => "deregister the existing tool first or use a different name; '"@ + name@ + "' already exists"@,
        Error::ToolInvalidName { name: _, reason: _ } => "tool names must be 1-64 chars, alphanumeric plus hyphens, underscores, and dots; no leading/trailing hyphen or dot"@,
        Error::ToolInvalidDescription { name: _, reason: _ } => "tool description must not be empty"@,
        Error::ToolInvocationFailed { name, reason } => "tool '"@ + name@ + "' failed to execute: "@ + reason@,
        Error::ToolProviderUnavailable { name } => "the agent providing tool '"@ + name@ + "' is not currently connected; check agent status"@,
        Error::TaskNotFound { id } => "no task with id '"@ + id@ + "'; use GET /tasks to list tasks"@,
        Error::TaskInvalidTransition { task_id: _, from, to } => "cannot transition from "@ + from@ + " to "@ + to@ + "; check the task state machine"@,
        Error::TaskAlreadyTerminal { task_id: _, state } => "task is in terminal state "@ + state@ + " and cannot be modified"@,
        Error::StateSnapshotFailed { reason } => "snapshot write failed: "@ + reason@ + "; check storage path permissions and disk space"@,
        Error::StateRestoreFailed { reason } => "snapshot restore failed: "@ + reason@ + "; the snapshot may be corrupt — delete it to start fresh"@,
        Error::ConfigInvalidToml { path, reason: _ } => "fix the TOML syntax error in '"@ + path@ + "'; run `trumpet config validate` for details"@,
        Error::ConfigMissingDir { path } => "create the config directory: `mkdir -p "@ + path@ + "`"@,
        Error::ConfigPermissionDenied { path } => "check file permissions on '"@ + path@ + "' and ensure the process user has read access"@,
        Error::ConfigValidationFailed { reason: _ } => "review the config schema in the documentation and correct the invalid field"@,
        Error::InvalidInput { reason } => "correct the request and try again: "@ + reason@,
        Error::InternalUnexpected { reason: _ } => "this is a bug — please report it with `trumpet bug-report`"@,
        Error::InternalBusFull { capacity: _ } => "the daemon is overloaded; consider reducing agent concurrency or restarting with `trumpet restart`"@,
    }
}

/// The position of an error's variant in the declaration order.
pub open spec fn variant_index(e: Error) -> nat {
    match e {
        Error::DaemonNotRunning => 0,
        Error::DaemonAlreadyRunning { .. } => 1,
        Error::DaemonBindFailed { .. } => 2,
        Error::DaemonShutdownFailed { .. } => 3,
        Error::ConnectionRefused => 4,
        Error::ConnectionTimeout { .. } => 5,
        Error::ConnectionSocketNotFound { .. } => 6,
        Error::AgentNotFound { .. } => 7,
        Error::AgentAlreadyRegistered { .. } => 8,
        Error::AgentInvalidName { .. } => 9,
        Error::ConversationNotFound { .. } => 10,
        Error::ConversationNotParticipant { .. } => 11,
        Error::ConversationEmptyParticipants => 12,
        Error::ToolNotFound { .. } => 13,
        Error::ToolNotFoundById { .. } => 14,
        Error::ToolAlreadyRegistered { .. } => 15,
        Error::ToolInvalidName { .. } => 16,
        Error::ToolInvalidDescription { .. } => 17,
        Error::ToolInvocationFailed { .. } => 18,
        Error::ToolProviderUnavailable { .. } => 19,
        Error::TaskNotFound { .. } => 20,
        Error::TaskInvalidTransition { .. } => 21,
        Error::TaskAlreadyTerminal { .. } => 22,
        Error::StateSnapshotFailed { .. } => 23,
        Error::StateRestoreFailed { .. } => 24,
        Error::ConfigInvalidToml { .. } => 25,
        Error::ConfigMissingDir { .. } => 26,
        Error::ConfigPermissionDenied { .. } => 27,
        Error::ConfigValidationFailed { .. } => 28,
        Error::InvalidInput { .. } => 29,
        Error::InternalUnexpected { .. } => 30,
        Error::InternalBusFull { .. } => 31,
    }
}

impl Error {
    /// The stable machine-readable identifier of this error.
    pub fn code(&self) -> (r: &'static str)
        ensures
            r@ == spec_code(*self),
    {
        match self {
            Error::DaemonNotRunning => "DAEMON_NOT_RUNNING",
            Error::DaemonAlreadyRunning { .. } => "DAEMON_ALREADY_RUNNING",
            Error::DaemonBindFailed { .. } => "DAEMON_BIND_FAILED",
            Error::DaemonShutdownFailed { .. } => "DAEMON_SHUTDOWN_FAILED",
            Error::ConnectionRefused => "CONNECTION_REFUSED",
            Error::ConnectionTimeout { .. } => "CONNECTION_TIMEOUT",
            Error::ConnectionSocketNotFound { .. } => "CONNECTION_SOCKET_NOT_FOUND",
            Error::AgentNotFound { .. } => "AGENT_NOT_FOUND",
            Error::AgentAlreadyRegistered { .. } => "AGENT_ALREADY_REGISTERED",
            Error::AgentInvalidName { .. } => "AGENT_INVALID_NAME",
            Error::ConversationNotFound { .. } => "CONVERSATION_NOT_FOUND",
            Error::ConversationNotParticipant { .. } => "CONVERSATION_NOT_PARTICIPANT",
            Error::ConversationEmptyParticipants => "CONVERSATION_EMPTY_PARTICIPANTS",
            Error::ToolNotFound { .. } => "TOOL_NOT_FOUND",
            Error::ToolNotFoundById { .. } => "TOOL_NOT_FOUND_BY_ID",
            Error::ToolAlreadyRegistered { .. } => "TOOL_ALREADY_REGISTERED",
            Error::ToolInvalidName { .. } => "TOOL_INVALID_NAME",
            Error::ToolInvalidDescription { .. } => "TOOL_INVALID_DESCRIPTION",
            Error::ToolInvocationFailed { .. } => "TOOL_INVOCATION_FAILED",
            Error::ToolProviderUnavailable { .. } => "TOOL_PROVIDER_UNAVAILABLE",
            Error::TaskNotFound { .. } => "TASK_NOT_FOUND",
            Error::TaskInvalidTransition { .. } => "TASK_INVALID_TRANSITION",
            Error::TaskAlreadyTerminal { .. } => "TASK_ALREADY_TERMINAL",
            Error::StateSnapshotFailed { .. } => "STATE_SNAPSHOT_FAILED",
            Error::StateRestoreFailed { .. } => "STATE_RESTORE_FAILED",
            Error::ConfigInvalidToml { .. } => "CONFIG_INVALID_TOML",
            Error::ConfigMissingDir { .. } => "CONFIG_MISSING_DIR",
            Error::ConfigPermissionDenied { .. } => "CONFIG_PERMISSION_DENIED",
            Error::ConfigValidationFailed { .. } => "CONFIG_VALIDATION_FAILED",
            Error::InvalidInput { .. } => "INVALID_INPUT",
            Error::InternalUnexpected { .. } => "INTERNAL_UNEXPECTED",
            Error::InternalBusFull { .. } => "INTERNAL_BUS_FULL",
        }
    }

    /// The HTTP status code most appropriate for this error class.
    pub fn http_status(&self) -> (r: u16)
        ensures
            r == spec_http_status(*self),
    {
        match self {
            Error::DaemonNotRunning => 503,
            Error::DaemonAlreadyRunning { .. } => 409,
            Error::DaemonBindFailed { .. } => 502,
            Error::DaemonShutdownFailed { .. } => 503,
            Error::ConnectionRefused => 502,
            Error::ConnectionTimeout { .. } => 502,
            Error::ConnectionSocketNotFound { .. } => 502,
            Error::AgentNotFound { .. } => 404,
            Error::AgentAlreadyRegistered { .. } => 409,
            Error::AgentInvalidName { .. } => 422,
            Error::ConversationNotFound { .. } => 404,
            Error::ConversationNotParticipant { .. } => 403,
            Error::ConversationEmptyParticipants => 422,
            Error::ToolNotFound { .. } => 404,
            Error::ToolNotFoundById { .. } => 404,
            Error::ToolAlreadyRegistered { .. } => 409,
            Error::ToolInvalidName { .. } => 422,
            Error::ToolInvalidDescription { .. } => 422,
            Error::ToolInvocationFailed { .. } => 500,
            Error::ToolProviderUnavailable { .. } => 503,
            Error::TaskNotFound { .. } => 404,
            Error::TaskInvalidTransition { .. } => 422,
            Error::TaskAlreadyTerminal { .. } => 409,
            Error::StateSnapshotFailed { .. } => 500,
            Error::StateRestoreFailed { .. } => 500,
            Error::ConfigInvalidToml { .. } => 422,
            Error::ConfigMissingDir { .. } => 404,
            Error::ConfigPermissionDenied { .. } => 403,
            Error::ConfigValidationFailed { .. } => 422,
            Error::InvalidInput { .. } => 400,
            Error::InternalUnexpected { .. } => 500,
            Error::InternalBusFull { .. } => 500,
        }
    }

    /// The human-readable message (what `Display` renders in the daemon).
    pub fn message(&self) -> (r: String)
        ensures
            r@ == spec_message(*self),
    {
        match self {
            Error::DaemonNotRunning => {
                let mut s = String::from_str("daemon is not running");
                s
            }
            Error::DaemonAlreadyRunning { pid } => {
                let mut s = String::from_str("daemon is already running (pid ");
                let n = u64_to_decimal(*pid as u64);
                s.append(n.as_str());
                s.append(")");
                s
            }
            Error::DaemonBindFailed { path, reason } => {
                let mut s = String::from_str("daemon failed to bind socket at '");
                s.append(path.as_str());
                s.append("': ");
                s.append(reason.as_str());
                s
            }
            Error::DaemonShutdownFailed { reason } => {
                let mut s = String::from_str("daemon shutdown failed: ");
                s.append(reason.as_str());
                s
            }
            Error::ConnectionRefused => {
                let mut s = String::from_str("connection refused by daemon");
                s
            }
            Error::ConnectionTimeout { duration } => {
                let mut s = String::from_str("connection timed out after ");
                s.append(duration.as_str());
                s
            }
            Error::ConnectionSocketNotFound { path } => {
                let mut s = String::from_str("daemon socket not found at '");
                s.append(path.as_str());
                s.append("'");
                s
            }
            Error::AgentNotFound { name } => {
                let mut s = String::from_str("agent '");
                s.append(name.as_str());
                s.append("' not found");
                s
            }
            Error::AgentAlreadyRegistered { name } => {
                let mut s = String::from_str("agent '");
                s.append(name.as_str());
                s.append("' is already registered");
                s
            }
            Error::AgentInvalidName { name, reason } => {
                let mut s = String::from_str("agent name '");
                s.append(name.as_str());
                s.append("' is invalid: ");
                s.append(reason.as_str());
                s
            }
            Error::ConversationNotFound { id } => {
                let mut s = String::from_str("conversation '");
                s.append(id.as_str());
                s.append("' not found");
                s
            }
            Error::ConversationNotParticipant { agent, id } => {
                let mut s = String::from_str("agent '");
                s.append(agent.as_str());
                s.append("' is not a participant in conversation '");
                s.append(id.as_str());
                s.append("'");
                s
            }
            Error::ConversationEmptyParticipants => {
                let mut s = String::from_str("conversation must have at least one participant");
                s
            }
            Error::ToolNotFound { name } => {
                let mut s = String::from_str("tool '");
                s.append(name.as_str());
                s.append("' not found");
                s
            }
            Error::ToolNotFoundById { id } => {
                let mut s = String::from_str("tool with id '");
                s.append(id.as_str());
                s.append("' not found");
                s
            }
            Error::ToolAlreadyRegistered { name } => {
                let mut s = String::from_str("tool '");
                s.append(name.as_str());
                s.append("' is already registered");
                s
            }
            Error::ToolInvalidName { name, reason } => {
                let mut s = String::from_str("tool name '");
                s.append(name.as_str());
                s.append("' is invalid: ");
                s.append(reason.as_str());
                s
            }
            Error::ToolInvalidDescription { name, reason } => {
                let mut s = String::from_str("tool '");
                s.append(name.as_str());
                s.append("' has invalid description: ");
                s.append(reason.as_str());
                s
            }
            Error::ToolInvocationFailed { name, reason } => {
                let mut s = String::from_str("tool invocation failed for '");
                s.append(name.as_str());
                s.append("': ");
                s.append(reason.as_str());
                s
            }
            Error::ToolProviderUnavailable { name } => {
                let mut s = String::from_str("tool provider unavailable for '");
                s.append(name.as_str());
                s.append("'");
                s
            }
            Error::TaskNotFound { id } => {
                let mut s = String::from_str("task '");
                s.append(id.as_str());
                s.append("' not found");
                s
            }
            Error::TaskInvalidTransition { task_id, from, to } => {
                let mut s = String::from_str("invalid task transition for '");
                s.append(task_id.as_str());
                s.append("': ");
                s.append(from.as_str());
                s.append(" -> ");
                s.append(to.as_str());
                s
            }
            Error::TaskAlreadyTerminal { task_id, state } => {
                let mut s = String::from_str("task '");
                s.append(task_id.as_str());
                s.append("' is already terminal (");
                s.append(state.as_str());
                s.append(")");
                s
            }
            Error::StateSnapshotFailed { reason } => {
                let mut s = String::from_str("state snapshot failed: ");
                s.append(reason.as_str());
                s
            }
            Error::StateRestoreFailed { reason } => {
                let mut s = String::from_str("state restore failed: ");
                s.append(reason.as_str());
                s
            }
            Error::ConfigInvalidToml { path, reason } => {
                let mut s = String::from_str("invalid TOML in config file '");
                s.append(path.as_str());
                s.append("': ");
                s.append(reason.as_str());
                s
            }
            Error::ConfigMissingDir { path } => {
                let mut s = String::from_str("config directory not found: '");
                s.append(path.as_str());
                s.append("'");
                s
            }
            Error::ConfigPermissionDenied { path } => {
                let mut s = String::from_str("permission denied accessing config at '");
                s.append(path.as_str());
                s.append("'");
                s
            }
            Error::ConfigValidationFailed { reason } => {
                let mut s = String::from_str("config validation failed: ");
                s.append(reason.as_str());
                s
            }
            Error::InvalidInput { reason } => {
                let mut s = String::from_str("invalid input: ");
                s.append(reason.as_str());
                s
            }
            Error::InternalUnexpected { reason } => {
                let mut s = String::from_str("internal error: ");
                s.append(reason.as_str());
                s
            }
            Error::InternalBusFull { capacity } => {
                let mut s = String::from_str("internal message bus is full (capacity: ");
                let n = u64_to_decimal(*capacity as u64);
                s.append(n.as_str());
                s.append(")");
                s
            }
        }
    }

    /// A short action the operator can take to resolve this error.
    pub fn suggestion(&self) -> (r: String)
        ensures
            r@ == spec_suggestion(*self),
    {
        match self {
            Error::DaemonNotRunning => {
                let mut s = String::from_str("run `trumpet start` to start the daemon");
                s
            }
            Error::DaemonAlreadyRunning { pid } => {
                let mut s = String::from_str("stop the running daemon first: `trumpet stop` (pid ");
                let n = u64_to_decimal(*pid as u64);
                s.append(n.as_str());
                s.append(")");
                s
            }
            Error::DaemonBindFailed { path, reason: _ } => {
                let mut s = String::from_str("check that '");
                s.append(path.as_str());
                s.append("' is writable and no other process holds the socket");
                s
            }
            Error::DaemonShutdownFailed { reason: _ } => {
                let mut s = String::from_str("try `trumpet stop --force` or manually kill the daemon process");
                s
            }
            Error::ConnectionRefused => {
                let mut s = String::from_str("verify the daemon is running with `trumpet status`");
                s
            }
            Error::ConnectionTimeout { duration: _ } => {
                let mut s = String::from_str("check daemon load with `trumpet status`; try again or restart with `trumpet restart`");
                s
            }
            Error::ConnectionSocketNotFound { path } => {
                let mut s = String::from_str("start the daemon with `trumpet start`; expected socket at '");
                s.append(path.as_str());
                s.append("'");
                s
            }
            Error::AgentNotFound { name } => {
                let mut s = String::from_str("list registered agents with `trumpet agent list`; '");
                s.append(name.as_str());
                s.append("' was not found");
                s
            }
            Error::AgentAlreadyRegistered { name } => {
                let mut s = String::from_str("unregister the existing agent first: `trumpet agent remove ");
                s.append(name.as_str());
                s.append("`");
                s
            }
            Error::AgentInvalidName { name: _, reason: _ } => {
                let mut s = String::from_str("agent names must be non-empty alphanumeric strings (hyphens allowed)");
                s
            }
            Error::ConversationNotFound { id } => {
                let mut s = String::from_str("list conversations with `trumpet chat list`; '");
                s.append(id.as_str());
                s.append("' was not found");
                s
            }
            Error::ConversationNotParticipant { agent, id } => {
                let mut s = String::from_str("add '");
                s.append(agent.as_str());
                s.append("' to conversation '");
                s.append(id.as_str());
                s.append("' before sending messages");
                s
            }
            Error::ConversationEmptyParticipants => {
                let mut s = String::from_str("provide at least one agent name when creating a conversation");
                s
            }
            Error::ToolNotFound { name } => {
                let mut s = String::from_str("list registered tools with GET /tools; '");
                s.append(name.as_str());
                s.append("' was not found");
                s
            }
            Error::ToolNotFoundById { id } => {
                let mut s = String::from_str("no tool with id '");
                s.append(id.as_str());
                s.append("'; list registered tools with GET /tools");
                s
            }
            Error::ToolAlreadyRegistered { name } => {
                let mut s = String::from_str("deregister the existing tool first or use a different name; '");
                s.append(name.as_str());
                s.append("' already exists");
                s
            }
            Error::ToolInvalidName { name: _, reason: _ } => {
                let mut s = String::from_str("tool names must be 1-64 chars, alphanumeric plus hyphens, underscores, and dots; no leading/trailing hyphen or dot");
                s
            }
            Error::ToolInvalidDescription { name: _, reason: _ } => {
                let mut s = String::from_str("tool description must not be empty");
                s
            }
            Error::ToolInvocationFailed { name, reason } => {
                let mut s = String::from_str("tool '");
                s.append(name.as_str());
                s.append("' failed to execute: ");
                s.append(reason.as_str());
                s
            }
            Error::ToolProviderUnavailable { name } => {
                let mut s = String::from_str("the agent providing tool '");
                s.append(name.as_str());
                s.append("' is not currently connected; check agent status");
                s
            }
            Error::TaskNotFound { id } => {
                let mut s = String::from_str("no task with id '");
                s.append(id.as_str());
                s.append("'; use GET /tasks to list tasks");
                s
            }
            Error::TaskInvalidTransition { task_id: _, from, to } => {
                let mut s = String::from_str("cannot transition from ");
                s.append(from.as_str());
                s.append(" to ");
                s.append(to.as_str());
                s.append("; check the task state machine");
                s
            }
            Error::TaskAlreadyTerminal { task_id: _, state } => {
                let mut s = String::from_str("task is in terminal state ");
                s.append(state.as_str());
                s.append(" and cannot be modified");
                s
            }
            Error::StateSnapshotFailed { reason } => {
                let mut s = String::from_str("snapshot write failed: ");
                s.append(reason.as_str());
                s.append("; check storage path permissions and disk space");
                s
            }
            Error::StateRestoreFailed { reason } => {
                let mut s = String::from_str("snapshot restore failed: ");
                s.append(reason.as_str());
                s.append("; the snapshot may be corrupt — delete it to start fresh");
                s
            }
            Error::ConfigInvalidToml { path, reason: _ } => {
                let mut s = String::from_str("fix the TOML syntax error in '");
                s.append(path.as_str());
                s.append("'; run `trumpet config validate` for details");
                s
            }
            Error::ConfigMissingDir { path } => {
                let mut s = String::from_str("create the config directory: `mkdir -p ");
                s.append(path.as_str());
                s.append("`");
                s
            }
            Error::ConfigPermissionDenied { path } => {
                let mut s = String::from_str("check file permissions on '");
                s.append(path.as_str());
                s.append("' and ensure the process user has read access");
                s
            }
            Error::ConfigValidationFailed { reason: _ } => {
                let mut s = String::from_str("review the config schema in the documentation and correct the invalid field");
                s
            }
            Error::InvalidInput { reason } => {
                let mut s = String::from_str("correct the request and try again: ");
                s.append(reason.as_str());
                s
            }
            Error::InternalUnexpected { reason: _ } => {
                let mut s = String::from_str("this is a bug — please report it with `trumpet bug-report`");
                s
            }
            Error::InternalBusFull { capacity: _ } => {
                let mut s = String::from_str("the daemon is overloaded; consider reducing agent concurrency or restarting with `trumpet restart`");
                s
            }
        }
    }

    /// The display text of this error; the same as [`Error::message`].
    pub fn to_string(&self) -> (r: String)
        ensures
            r@ == spec_message(*self),
    {
        self.message()
    }
}

/// Machine-readable error metadata attached to every [`Error`] variant.
///
/// Implementors provide a stable upper-case code string, an HTTP status
/// for API responses, and an actionable suggestion.
pub trait ErrorCode {
    /// A stable, `SCREAMING_SNAKE_CASE` machine-readable identifier.
    fn code(&self) -> &'static str;

    /// The HTTP status code most appropriate for this error class.
    fn http_status(&self) -> u16;

    /// A short, human-readable action the operator can take.
    fn suggestion(&self) -> String;
}

impl ErrorCode for Error {
    fn code(&self) -> (r: &'static str)
        ensures
            r@ == spec_code(*self),
    {
        Error::code(self)
    }

    fn http_status(&self) -> (r: u16)
        ensures
            r == spec_http_status(*self),
    {
        Error::http_status(self)
    }

    fn suggestion(&self) -> (r: String)
        ensures
            r@ == spec_suggestion(*self),
    {
        Error::suggestion(self)
    }
}

/// The characters allowed in an error code: upper-case ASCII letters,
/// digits and underscores.
pub open spec fn is_screaming_snake_char(c: char) -> bool {
    ('A' <= c && c <= 'Z') || ('0' <= c && c <= '9') || c == '_'
}

/// Every error code is non-empty and written in `SCREAMING_SNAKE_CASE`.
pub proof fn lemma_codes_are_screaming_snake(e: Error)
    ensures
        spec_code(e).len() > 0,
        forall|i: int| 0 <= i < spec_code(e).len() ==> is_screaming_snake_char(#[trigger] spec_code(e)[i]),
{
    reveal_strlit("DAEMON_NOT_RUNNING");
    reveal_strlit("DAEMON_ALREADY_RUNNING");
    reveal_strlit("DAEMON_BIND_FAILED");
    reveal_strlit("DAEMON_SHUTDOWN_FAILED");
    reveal_strlit("CONNECTION_REFUSED");
    reveal_strlit("CONNECTION_TIMEOUT");
    reveal_strlit("CONNECTION_SOCKET_NOT_FOUND");
    reveal_strlit("AGENT_NOT_FOUND");
    reveal_strlit("AGENT_ALREADY_REGISTERED");
    reveal_strlit("AGENT_INVALID_NAME");
    reveal_strlit("CONVERSATION_NOT_FOUND");
    reveal_strlit("CONVERSATION_NOT_PARTICIPANT");
    reveal_strlit("CONVERSATION_EMPTY_PARTICIPANTS");
    reveal_strlit("TOOL_NOT_FOUND");
    reveal_strlit("TOOL_NOT_FOUND_BY_ID");
    reveal_strlit("TOOL_ALREADY_REGISTERED");
    reveal_strlit("TOOL_INVALID_NAME");
    reveal_strlit("TOOL_INVALID_DESCRIPTION");
    reveal_strlit("TOOL_INVOCATION_FAILED");
    reveal_strlit("TOOL_PROVIDER_UNAVAILABLE");
    reveal_strlit("TASK_NOT_FOUND");
    reveal_strlit("TASK_INVALID_TRANSITION");
    reveal_strlit("TASK_ALREADY_TERMINAL");
    reveal_strlit("STATE_SNAPSHOT_FAILED");
    reveal_strlit("STATE_RESTORE_FAILED");
    reveal_strlit("CONFIG_INVALID_TOML");
    reveal_strlit("CONFIG_MISSING_DIR");
    reveal_strlit("CONFIG_PERMISSION_DENIED");
    reveal_strlit("CONFIG_VALIDATION_FAILED");
    reveal_strlit("INVALID_INPUT");
    reveal_strlit("INTERNAL_UNEXPECTED");
    reveal_strlit("INTERNAL_BUS_FULL");
}

/// Every error carries a non-empty suggestion.
pub proof fn lemma_suggestion_non_empty(e: Error)
    ensures
        spec_suggestion(e).len() > 0,
{
    reveal_strlit("run `trumpet start` to start the daemon");
    reveal_strlit("stop the running daemon first: `trumpet stop` (pid ");
    reveal_strlit("check that '");
    reveal_strlit("try `trumpet stop --force` or manually kill the daemon process");
    reveal_strlit("verify the daemon is running with `trumpet status`");
    reveal_strlit("check daemon load with `trumpet status`; try again or restart with `trumpet restart`");
    reveal_strlit("start the daemon with `trumpet start`; expected socket at '");
    reveal_strlit("list registered agents with `trumpet agent list`; '");
    reveal_strlit("unregister the existing agent first: `trumpet agent remove ");
    reveal_strlit("agent names must be non-empty alphanumeric strings (hyphens allowed)");
    reveal_strlit("list conversations with `trumpet chat list`; '");
    reveal_strlit("add '");
    reveal_strlit("provide at least one agent name when creating a conversation");
    reveal_strlit("list registered tools with GET /tools; '");
    reveal_strlit("no tool with id '");
    reveal_strlit("deregister the existing tool first or use a different name; '");
    reveal_strlit("tool names must be 1-64 chars, alphanumeric plus hyphens, underscores, and dots; no leading/trailing hyphen or dot");
    reveal_strlit("tool description must not be empty");
    reveal_strlit("tool '");
    reveal_strlit("the agent providing tool '");
    reveal_strlit("no task with id '");
    reveal_strlit("cannot transition from ");
    reveal_strlit("task is in terminal state ");
    reveal_strlit("snapshot write failed: ");
    reveal_strlit("snapshot restore failed: ");
    reveal_strlit("fix the TOML syntax error in '");
    reveal_strlit("create the config directory: `mkdir -p ");
    reveal_strlit("check file permissions on '");
    reveal_strlit("review the config schema in the documentation and correct the invalid field");
    reveal_strlit("correct the request and try again: ");
    reveal_strlit("this is a bug — please report it with `trumpet bug-report`");
    reveal_strlit("the daemon is overloaded; consider reducing agent concurrency or restarting with `trumpet restart`");
}

/// Every error carries a non-empty message.
pub proof fn lemma_message_non_empty(e: Error)
    ensures
        spec_message(e).len() > 0,
{
    reveal_strlit("daemon is not running");
    reveal_strlit("daemon is already running (pid ");
    reveal_strlit("daemon failed to bind socket at '");
    reveal_strlit("daemon shutdown failed: ");
    reveal_strlit("connection refused by daemon");
    reveal_strlit("connection timed out after ");
    reveal_strlit("daemon socket not found at '");
    reveal_strlit("agent '");
    reveal_strlit("agent name '");
    reveal_strlit("conversation '");
    reveal_strlit("conversation must have at least one participant");
    reveal_strlit("tool '");
    reveal_strlit("tool with id '");
    reveal_strlit("tool name '");
    reveal_strlit("tool invocation failed for '");
    reveal_strlit("tool provider unavailable for '");
    reveal_strlit("task '");
    reveal_strlit("invalid task transition for '");
    reveal_strlit("state snapshot failed: ");
    reveal_strlit("state restore failed: ");
    reveal_strlit("invalid TOML in config file '");
    reveal_strlit("config directory not found: '");
    reveal_strlit("permission denied accessing config at '");
    reveal_strlit("config validation failed: ");
    reveal_strlit("invalid input: ");
    reveal_strlit("internal error: ");
    reveal_strlit("internal message bus is full (capacity: ");
}

/// Two errors share a code only when they are the same variant: the codes
/// identify variants uniquely.
#[verifier::rlimit(100)]
pub proof fn lemma_codes_are_unique(e1: Error, e2: Error)
    requires
        spec_code(e1) == spec_code(e2),
    ensures
        variant_index(e1) == variant_index(e2),
{
    reveal_strlit("DAEMON_NOT_RUNNING");
    reveal_strlit("DAEMON_ALREADY_RUNNING");
    reveal_strlit("DAEMON_BIND_FAILED");
    reveal_strlit("DAEMON_SHUTDOWN_FAILED");
    reveal_strlit("CONNECTION_REFUSED");
    reveal_strlit("CONNECTION_TIMEOUT");
    reveal_strlit("CONNECTION_SOCKET_NOT_FOUND");
    reveal_strlit("AGENT_NOT_FOUND");
    reveal_strlit("AGENT_ALREADY_REGISTERED");
    reveal_strlit("AGENT_INVALID_NAME");
    reveal_strlit("CONVERSATION_NOT_FOUND");
    reveal_strlit("CONVERSATION_NOT_PARTICIPANT");
    reveal_strlit("CONVERSATION_EMPTY_PARTICIPANTS");
    reveal_strlit("TOOL_NOT_FOUND");
    reveal_strlit("TOOL_NOT_FOUND_BY_ID");
    reveal_strlit("TOOL_ALREADY_REGISTERED");
    reveal_strlit("TOOL_INVALID_NAME");
    reveal_strlit("TOOL_INVALID_DESCRIPTION");
    reveal_strlit("TOOL_INVOCATION_FAILED");
    reveal_strlit("TOOL_PROVIDER_UNAVAILABLE");
    reveal_strlit("TASK_NOT_FOUND");
    reveal_strlit("TASK_INVALID_TRANSITION");
    reveal_strlit("TASK_ALREADY_TERMINAL");
    reveal_strlit("STATE_SNAPSHOT_FAILED");
    reveal_strlit("STATE_RESTORE_FAILED");
    reveal_strlit("CONFIG_INVALID_TOML");
    reveal_strlit("CONFIG_MISSING_DIR");
    reveal_strlit("CONFIG_PERMISSION_DENIED");
    reveal_strlit("CONFIG_VALIDATION_FAILED");
    reveal_strlit("INVALID_INPUT");
    reveal_strlit("INTERNAL_UNEXPECTED");
    reveal_strlit("INTERNAL_BUS_FULL");
    let c1 = spec_code(e1);
    let c2 = spec_code(e2);
    assert(c1.len() == c2.len());
    assert(0 < c1.len() ==> c1[0] == c2[0]);
    assert(1 < c1.len() ==> c1[1] == c2[1]);
    assert(2 < c1.len() ==> c1[2] == c2[2]);
    assert(3 < c1.len() ==> c1[3] == c2[3]);
    assert(4 < c1.len() ==> c1[4] == c2[4]);
    assert(5 < c1.len() ==> c1[5] == c2[5]);
    assert(6 < c1.len() ==> c1[6] == c2[6]);
    assert(7 < c1.len() ==> c1[7] == c2[7]);
    assert(8 < c1.len() ==> c1[8] == c2[8]);
    assert(9 < c1.len() ==> c1[9] == c2[9]);
    assert(10 < c1.len() ==> c1[10] == c2[10]);
    assert(11 < c1.len() ==> c1[11] == c2[11]);
    assert(12 < c1.len() ==> c1[12] == c2[12]);
    assert(13 < c1.len() ==> c1[13] == c2[13]);
    assert(14 < c1.len() ==> c1[14] == c2[14]);
    assert(15 < c1.len() ==> c1[15] == c2[15]);
    assert(16 < c1.len() ==> c1[16] == c2[16]);
    assert(17 < c1.len() ==> c1[17] == c2[17]);
    assert(18 < c1.len() ==> c1[18] == c2[18]);
    assert(19 < c1.len() ==> c1[19] == c2[19]);
    assert(20 < c1.len() ==> c1[20] == c2[20]);
    assert(21 < c1.len() ==> c1[21] == c2[21]);
    assert(22 < c1.len() ==> c1[22] == c2[22]);
    assert(23 < c1.len() ==> c1[23] == c2[23]);
}

/// The top-level JSON body returned by API endpoints on error.
///
/// Serializes to `{"error": { ... }}` so that consumers can always key on
/// `error.code` regardless of HTTP status.
#[derive(Debug)]
pub struct JsonErrorBody {
    pub error: JsonErrorDetail,
}

/// The detail object nested inside [`JsonErrorBody`].
#[derive(Debug)]
pub struct JsonErrorDetail {
    /// Stable `SCREAMING_SNAKE_CASE` identifier.
    pub code: &'static str,
    /// Human-readable description of what went wrong.
    pub message: String,
    /// Actionable step the operator can take to resolve the issue.
    pub suggestion: String,
    /// Full chain of error causes; absent in production responses.
    pub debug: Option<String>,
}

/// The debug chain of an error: its message followed by one
/// `"caused by: ..."` line per underlying cause. No variant of [`Error`]
/// wraps another error, so the chain is the message alone.
pub open spec fn spec_debug_chain(e: Error) -> Seq<char> {
    spec_message(e)
}

/// Render the full cause chain of `err`, one cause per line.
pub fn build_debug_chain(err: &Error) -> (r: String)
    ensures
        r@ == spec_debug_chain(*err),
{
    err.message()
}

impl Error {
    /// Serialize the error into a [`JsonErrorBody`].
    ///
    /// When `include_debug` is `true` the `debug` field holds the full cause
    /// chain; otherwise it is absent.
    pub fn to_json_body(&self, include_debug: bool) -> (body: JsonErrorBody)
        ensures
            body.error.code@ == spec_code(*self),
            body.error.message@ == spec_message(*self),
            body.error.suggestion@ == spec_suggestion(*self),
            include_debug <==> body.error.debug is Some,
            include_debug ==> body.error.debug->0@ == spec_debug_chain(*self),
    {
        let debug = if include_debug {
            Some(build_debug_chain(self))
        } else {
            None
        };
        JsonErrorBody {
            error: JsonErrorDetail {
                code: self.code(),
                message: self.message(),
                suggestion: self.suggestion(),
                debug,
            },
        }
    }
}

/// The CLI rendering of an error:
/// `error[CODE]: message` followed by `  -> suggestion` on the next line.
pub open spec fn spec_cli_text(e: Error) -> Seq<char> {
    "error["@ + spec_code(e) + "]: "@ + spec_message(e) + "\n  -> "@ + spec_suggestion(e)
}

/// Newtype wrapper around [`Error`] that renders a CLI-friendly two-liner.
pub struct CliFormatter<'a>(pub &'a Error);

impl<'a> CliFormatter<'a> {
    /// Render the wrapped error as `error[CODE]: message\n  -> suggestion`.
    pub fn to_string(&self) -> (r: String)
        ensures
            r@ == spec_cli_text(*self.0),
    {
        let err = self.0;
        let mut s = String::from_str("error[");
        s.append(err.code());
        s.append("]: ");
        let m = err.message();
        s.append(m.as_str());
        s.append("\n  -> ");
        let g = err.suggestion();
        s.append(g.as_str());
        s
    }
}

/// The CLI rendering always starts with `error[` and holds the
/// `"\n  -> "` separator right after the message.
pub proof fn lemma_cli_text_shape(e: Error)
    ensures
        spec_cli_text(e).subrange(0, 6) == "error["@,
        spec_cli_text(e).subrange(
            6 + spec_code(e).len() + 3 + spec_message(e).len() as int,
            6 + spec_code(e).len() + 3 + spec_message(e).len() + 6 as int,
        ) == "\n  -> "@,
{
    reveal_strlit("error[");
    reveal_strlit("]: ");
    reveal_strlit("\n  -> ");
    let t = spec_cli_text(e);
    assert(t.subrange(0, 6) =~= "error["@);
    let k: int = 6 + spec_code(e).len() + 3 + spec_message(e).len() as int;
    let a = "error["@ + spec_code(e) + "]: "@ + spec_message(e);
    assert(a.len() == k);
    let b = a + "\n  -> "@;
    assert(t == b + spec_suggestion(e));
    assert(b.subrange(k, k + 6) =~= "\n  -> "@);
    assert(t.subrange(k, k + 6) =~= b.subrange(k, k + 6));
}

} // verus!
