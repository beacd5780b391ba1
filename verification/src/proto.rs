//! The A2A (`lf.a2a.v1`) wire messages the gRPC service exchanges, as
//! plain data, and their conversions to and from the task types.
//!
//! Structured values (`google.protobuf.Struct` and `Value`) are carried as
//! JSON text, as they are in the task types.

use vstd::prelude::*;
use vstd::string::StringExecFns;

use crate::ids::{uuid_parse, uuid_text, ContextId, MessageId, PushNotificationId, TaskId};
use crate::push::{auth_view, AuthView, PushNotificationConfig};
use crate::model::{clone_opt_string, opt_view, Timestamp};
use crate::task_types::{
    Artifact, MessageRole, Part, PartView, Task, TaskMessage, TaskState, TaskStatus,
};
use crate::text::{decimal, decimal_i32, spec_decimal_i32};

verus! {

/// The wire number of `TASK_STATE_SUBMITTED` and its siblings.
pub open spec fn spec_state_number(s: TaskState) -> i32 {
    match s {
        TaskState::Submitted => 1,
        TaskState::Working => 2,
        TaskState::Completed => 3,
        TaskState::Failed => 4,
        TaskState::Canceled => 5,
        TaskState::InputRequired => 6,
        TaskState::Rejected => 7,
        TaskState::AuthRequired => 8,
    }
}

/// The state a wire number stands for; `0` (unspecified) and unknown
/// numbers stand for none.
pub open spec fn spec_state_of_number(v: i32) -> Option<TaskState> {
    if v == 1 { Some(TaskState::Submitted) }
    else if v == 2 { Some(TaskState::Working) }
    else if v == 3 { Some(TaskState::Completed) }
    else if v == 4 { Some(TaskState::Failed) }
    else if v == 5 { Some(TaskState::Canceled) }
    else if v == 6 { Some(TaskState::InputRequired) }
    else if v == 7 { Some(TaskState::Rejected) }
    else if v == 8 { Some(TaskState::AuthRequired) }
    else { None }
}

/// The wire number of a role (`ROLE_USER` is 1, `ROLE_AGENT` is 2).
pub open spec fn spec_role_number(r: MessageRole) -> i32 {
    match r {
        MessageRole::User => 1,
        MessageRole::Agent => 2,
    }
}

/// Why a wire message cannot become a task type.
#[derive(Debug)]
pub enum ConvertError {
    /// The message is malformed (gRPC `INVALID_ARGUMENT`).
    InvalidArgument(String),
    /// The message uses a feature not supported here (gRPC
    /// `UNIMPLEMENTED`).
    Unimplemented(String),
}

/// A point in time on the wire (`google.protobuf.Timestamp`).
#[derive(Clone, Copy, Debug, PartialEq, Eq, Structural)]
pub struct ProtoTimestamp {
    pub seconds: i64,
    pub nanos: i32,
}

/// The content of a wire part.
#[derive(Debug)]
pub enum ProtoPartContent {
    Text(String),
    Url(String),
    /// Structured data as JSON text.
    Data(String),
    /// Raw bytes.
    Raw(Vec<u8>),
}

/// A wire part.
#[derive(Debug)]
pub struct ProtoPart {
    pub content: Option<ProtoPartContent>,
    /// Metadata as JSON text.
    pub metadata: Option<String>,
    pub filename: String,
    pub media_type: String,
}

/// A wire message.
#[derive(Debug)]
pub struct ProtoMessage {
    pub message_id: String,
    pub context_id: String,
    pub task_id: String,
    pub role: i32,
    pub parts: Vec<ProtoPart>,
    /// Metadata as JSON text.
    pub metadata: Option<String>,
    pub extensions: Vec<String>,
    pub reference_task_ids: Vec<String>,
}

/// A wire task status.
#[derive(Debug)]
pub struct ProtoTaskStatus {
    pub state: i32,
    pub message: Option<ProtoMessage>,
    pub timestamp: Option<ProtoTimestamp>,
}

/// A wire artifact.
#[derive(Debug)]
pub struct ProtoArtifact {
    pub artifact_id: String,
    pub name: String,
    pub description: String,
    pub parts: Vec<ProtoPart>,
    /// Metadata as JSON text.
    pub metadata: Option<String>,
    pub extensions: Vec<String>,
}

/// A wire task.
#[derive(Debug)]
pub struct ProtoTask {
    pub id: String,
    pub context_id: String,
    pub status: Option<ProtoTaskStatus>,
    pub artifacts: Vec<ProtoArtifact>,
    pub history: Vec<ProtoMessage>,
    /// Metadata as JSON text.
    pub metadata: Option<String>,
}

// ── Core to wire ─────────────────────────────────────────────────────────────

/// The wire number of a task state.
pub fn core_state_to_proto(state: TaskState) -> (r: i32)
    ensures
        r == spec_state_number(state),
{
    match state {
        TaskState::Submitted => 1,
        TaskState::Working => 2,
        TaskState::Completed => 3,
        TaskState::Failed => 4,
        TaskState::Canceled => 5,
        TaskState::InputRequired => 6,
        TaskState::Rejected => 7,
        TaskState::AuthRequired => 8,
    }
}

/// The task state of a wire number.
///
/// # Errors
///
/// [`ConvertError::InvalidArgument`] for the unspecified state (`0`) and
/// unknown numbers: `"unknown task state: {value}"`.
pub fn proto_state_to_core(value: i32) -> (r: Result<TaskState, ConvertError>)
    ensures
        match spec_state_of_number(value) {
            Some(s) => r == Ok::<TaskState, ConvertError>(s),
            None => r matches Err(ConvertError::InvalidArgument(m))
                && m@ == "unknown task state: "@ + spec_decimal_i32(value),
        },
{
    if value == 1 { Ok(TaskState::Submitted) }
    else if value == 2 { Ok(TaskState::Working) }
    else if value == 3 { Ok(TaskState::Completed) }
    else if value == 4 { Ok(TaskState::Failed) }
    else if value == 5 { Ok(TaskState::Canceled) }
    else if value == 6 { Ok(TaskState::InputRequired) }
    else if value == 7 { Ok(TaskState::Rejected) }
    else if value == 8 { Ok(TaskState::AuthRequired) }
    else {
        let mut s = String::from_str("unknown task state: ");
        let n = decimal_i32(value);
        s.append(n.as_str());
        Err(ConvertError::InvalidArgument(s))
    }
}

fn core_role_to_proto(role: MessageRole) -> (r: i32)
    ensures
        r == spec_role_number(role),
{
    match role {
        MessageRole::User => 1,
        MessageRole::Agent => 2,
    }
}

fn proto_role_to_core(value: i32) -> (r: Result<MessageRole, ConvertError>)
    ensures
        value == 1 ==> r == Ok::<MessageRole, ConvertError>(MessageRole::User),
        value == 2 ==> r == Ok::<MessageRole, ConvertError>(MessageRole::Agent),
        value != 1 && value != 2 ==> (r matches Err(ConvertError::InvalidArgument(m))
            && m@ == "unknown role: "@ + spec_decimal_i32(value)),
{
    if value == 1 {
        Ok(MessageRole::User)
    } else if value == 2 {
        Ok(MessageRole::Agent)
    } else {
        let mut s = String::from_str("unknown role: ");
        let n = decimal_i32(value);
        s.append(n.as_str());
        Err(ConvertError::InvalidArgument(s))
    }
}

/// The wire content a part becomes.
pub open spec fn spec_part_content(p: PartView) -> (int, Seq<char>) {
    match p {
        PartView::Text(t) => (0, t),
        PartView::Url(u) => (1, u),
        PartView::Data(d) => (2, d),
    }
}

/// The kind and text of a wire part's content (`Raw` has kind 3).
pub open spec fn proto_content_view(c: Option<ProtoPartContent>) -> Option<(int, Seq<char>)> {
    match c {
        Some(ProtoPartContent::Text(t)) => Some((0, t@)),
        Some(ProtoPartContent::Url(u)) => Some((1, u@)),
        Some(ProtoPartContent::Data(d)) => Some((2, d@)),
        Some(ProtoPartContent::Raw(_)) => Some((3, Seq::empty())),
        None => None,
    }
}

/// Convert a task part to its wire form: its content, with no metadata,
/// file name or media type.
pub fn core_part_to_proto(part: &Part) -> (r: ProtoPart)
    ensures
        proto_content_view(r.content) == Some(spec_part_content(part@)),
        r.metadata is None,
        r.filename@.len() == 0,
        r.media_type@.len() == 0,
{
    let content = match part {
        Part::Text { text } => ProtoPartContent::Text(text.clone()),
        Part::Url { url } => ProtoPartContent::Url(url.clone()),
        Part::Data { data } => ProtoPartContent::Data(data.clone()),
    };
    ProtoPart { content: Some(content), metadata: None, filename: String::new(), media_type: String::new() }
}

/// Convert a wire part to a task part: text, URL and data parts carry
/// over; raw bytes are not supported.
///
/// # Errors
///
/// [`ConvertError::Unimplemented`] for a raw part;
/// [`ConvertError::InvalidArgument`] for a part without content.
pub fn proto_part_to_core(part: &ProtoPart) -> (r: Result<Part, ConvertError>)
    ensures
        match part.content {
            Some(ProtoPartContent::Raw(bytes)) => r matches Err(ConvertError::Unimplemented(m))
                && m@ == "binary (raw) parts are not yet supported ("@ + decimal(bytes@.len()) + " bytes)"@,
            _ => true,
        },
        match proto_content_view(part.content) {
            Some((k, t)) => if k < 3 {
                r matches Ok(p) && spec_part_content(p@) == (k, t)
            } else {
                r is Err
            },
            None => r matches Err(ConvertError::InvalidArgument(m)) && m@ == "part has no content"@,
        },
{
    match &part.content {
        Some(ProtoPartContent::Text(t)) => Ok(Part::Text { text: t.clone() }),
        Some(ProtoPartContent::Url(u)) => Ok(Part::Url { url: u.clone() }),
        Some(ProtoPartContent::Data(d)) => Ok(Part::Data { data: d.clone() }),
        Some(ProtoPartContent::Raw(bytes)) => {
            let mut s = String::from_str("binary (raw) parts are not yet supported (");
            let n = crate::text::u64_to_decimal(bytes.len() as u64);
            s.append(n.as_str());
            s.append(" bytes)");
            Err(ConvertError::Unimplemented(s))
        },
        None => Err(ConvertError::InvalidArgument(String::from_str("part has no content"))),
    }
}

/// The wire contents of a sequence of parts.
pub open spec fn parts_content(ps: Seq<PartView>) -> Seq<(int, Seq<char>)> {
    ps.map_values(|p: PartView| spec_part_content(p))
}

/// The contents of a sequence of wire parts.
pub open spec fn proto_parts_content(ps: Seq<ProtoPart>) -> Seq<Option<(int, Seq<char>)>> {
    ps.map_values(|p: ProtoPart| proto_content_view(p.content))
}

/// Whether a wire part has content a task part can hold (not raw bytes).
pub open spec fn supported_content(c: Option<ProtoPartContent>) -> bool {
    match c {
        Some(ProtoPartContent::Raw(_)) => false,
        Some(_) => true,
        None => false,
    }
}

fn parts_to_proto(parts: &Vec<Part>) -> (r: Vec<ProtoPart>)
    ensures
        r@.len() == parts@.len(),
        forall|i: int| 0 <= i < r@.len() ==> proto_content_view(#[trigger] r@[i].content) == Some(
            spec_part_content(parts@[i]@),
        ),
{
    let mut r: Vec<ProtoPart> = Vec::new();
    let mut i: usize = 0;
    while i < parts.len()
        invariant
            i <= parts@.len(),
            r@.len() == i,
            forall|j: int| 0 <= j < i ==> proto_content_view(#[trigger] r@[j].content) == Some(
                spec_part_content(parts@[j]@),
            ),
        decreases parts.len() - i,
    {
        r.push(core_part_to_proto(&parts[i]));
        i = i + 1;
    }
    r
}

/// Whether `r` is the wire form of task message `msg`: the identifier's
/// text (which reads back as the identifier), the role's number, the parts
/// in order, and the metadata; context, task, extensions and references
/// empty.
pub open spec fn is_proto_of_message(r: ProtoMessage, msg: TaskMessage) -> bool {
    &&& r.message_id@ == uuid_text(msg.id.0)
    &&& uuid_parse(r.message_id@) == Some(msg.id.0)
    &&& r.context_id@.len() == 0
    &&& r.task_id@.len() == 0
    &&& r.role == spec_role_number(msg.role)
    &&& r.parts@.len() == msg.parts@.len()
    &&& (forall|i: int| 0 <= i < r.parts@.len() ==> proto_content_view(#[trigger] r.parts@[i].content) == Some(
        spec_part_content(msg.parts@[i]@),
    ))
    &&& opt_view(r.metadata) == opt_view(msg.metadata)
    &&& r.extensions@.len() == 0
    &&& r.reference_task_ids@.len() == 0
}

/// Convert a task message to its wire form: the identifier's text, the
/// role's number, the parts, and the metadata; context and task are left
/// empty.
pub fn core_message_to_proto(msg: &TaskMessage) -> (r: ProtoMessage)
    ensures
        is_proto_of_message(r, *msg),
{
    ProtoMessage {
        message_id: msg.id.to_string(),
        context_id: String::new(),
        task_id: String::new(),
        role: core_role_to_proto(msg.role),
        parts: parts_to_proto(&msg.parts),
        metadata: clone_opt_string(&msg.metadata),
        extensions: Vec::new(),
        reference_task_ids: Vec::new(),
    }
}

/// The wire form of an instant.
pub fn timestamp_to_proto(t: Timestamp) -> (r: ProtoTimestamp)
    requires
        t.nanos < 2_000_000_000,
    ensures
        r.seconds == t.secs,
        r.nanos == t.nanos,
{
    ProtoTimestamp { seconds: t.secs, nanos: t.nanos as i32 }
}

fn core_status_to_proto(status: &TaskStatus) -> (r: ProtoTaskStatus)
    requires
        status.timestamp.nanos < 2_000_000_000,
    ensures
        r.state == spec_state_number(status.state),
        r.message is Some == status.message is Some,
        r.message matches Some(m) ==> is_proto_of_message(m, status.message.unwrap()),
        r.timestamp == Some(ProtoTimestamp { seconds: status.timestamp.secs, nanos: status.timestamp.nanos as i32 }),
{
    let message = match &status.message {
        Some(m) => Some(core_message_to_proto(m)),
        None => None,
    };
    ProtoTaskStatus {
        state: core_state_to_proto(status.state),
        message,
        timestamp: Some(timestamp_to_proto(status.timestamp)),
    }
}

/// The text of an optional string, empty when absent.
pub open spec fn text_or_empty(s: Option<String>) -> Seq<char> {
    match s {
        Some(s) => s@,
        None => Seq::empty(),
    }
}

fn core_artifact_to_proto(a: &Artifact) -> (r: ProtoArtifact)
    ensures
        r.artifact_id@ == uuid_text(a.id.0),
        r.name@ == text_or_empty(a.name),
        r.description@ == text_or_empty(a.description),
        r.parts@.len() == a.parts@.len(),
        opt_view(r.metadata) == opt_view(a.metadata),
{
    let name = match &a.name {
        Some(n) => n.clone(),
        None => String::new(),
    };
    let description = match &a.description {
        Some(d) => d.clone(),
        None => String::new(),
    };
    ProtoArtifact {
        artifact_id: a.id.to_string(),
        name,
        description,
        parts: parts_to_proto(&a.parts),
        metadata: clone_opt_string(&a.metadata),
        extensions: Vec::new(),
    }
}

/// Convert a task to its wire form: identifiers as text, the status with
/// its state number, message and timestamp, every artifact and every
/// history message in order, and the metadata.
pub fn core_task_to_proto(task: &Task) -> (r: ProtoTask)
    requires
        task.status.timestamp.nanos < 2_000_000_000,
    ensures
        r.id@ == uuid_text(task.id.0),
        uuid_parse(r.id@) == Some(task.id.0),
        r.context_id@ == uuid_text(task.context_id.0),
        uuid_parse(r.context_id@) == Some(task.context_id.0),
        r.status matches Some(s) && s.state == spec_state_number(task.status.state)
            && s.message is Some == task.status.message is Some
            && (s.message matches Some(m) ==> is_proto_of_message(m, task.status.message.unwrap()))
            && s.timestamp == Some(
                ProtoTimestamp { seconds: task.status.timestamp.secs, nanos: task.status.timestamp.nanos as i32 },
            ),
        r.artifacts@.len() == task.artifacts@.len(),
        forall|i: int| 0 <= i < r.artifacts@.len() ==> (#[trigger] r.artifacts@[i]).artifact_id@ == uuid_text(
            task.artifacts@[i].id.0,
        ),
        r.history@.len() == task.history@.len(),
        forall|i: int| 0 <= i < r.history@.len() ==> is_proto_of_message(#[trigger] r.history@[i], task.history@[i]),
        opt_view(r.metadata) == opt_view(task.metadata),
{
    let mut artifacts: Vec<ProtoArtifact> = Vec::new();
    let mut i: usize = 0;
    while i < task.artifacts.len()
        invariant
            i <= task.artifacts@.len(),
            artifacts@.len() == i,
            forall|j: int| 0 <= j < i ==> (#[trigger] artifacts@[j]).artifact_id@ == uuid_text(
                task.artifacts@[j].id.0,
            ),
        decreases task.artifacts.len() - i,
    {
        artifacts.push(core_artifact_to_proto(&task.artifacts[i]));
        i = i + 1;
    }
    let mut history: Vec<ProtoMessage> = Vec::new();
    let mut i: usize = 0;
    while i < task.history.len()
        invariant
            i <= task.history@.len(),
            history@.len() == i,
            forall|j: int| 0 <= j < i ==> is_proto_of_message(#[trigger] history@[j], task.history@[j]),
        decreases task.history.len() - i,
    {
        history.push(core_message_to_proto(&task.history[i]));
        i = i + 1;
    }
    ProtoTask {
        id: task.id.to_string(),
        context_id: task.context_id.to_string(),
        status: Some(core_status_to_proto(&task.status)),
        artifacts,
        history,
        metadata: clone_opt_string(&task.metadata),
    }
}

// ── Wire to core ─────────────────────────────────────────────────────────────

/// Whether task message `m` is what wire message `msg` converts to: the
/// role of its number, the parts' contents in order, the metadata, and —
/// when the wire identifier is not empty — the identifier it reads as.
pub open spec fn is_core_of_proto(m: TaskMessage, msg: ProtoMessage) -> bool {
    &&& spec_role_number(m.role) == msg.role
    &&& m.parts@.len() == msg.parts@.len()
    &&& forall|i: int| 0 <= i < m.parts@.len() ==> proto_content_view(#[trigger] msg.parts@[i].content)
        == Some(spec_part_content(m.parts@[i]@))
    &&& opt_view(m.metadata) == opt_view(msg.metadata)
    &&& msg.message_id@.len() > 0 ==> uuid_parse(msg.message_id@) == Some(m.id.0)
}

/// Whether a wire message converts: a known role, supported content in
/// every part, and an empty or UUID identifier.
pub open spec fn proto_convertible(msg: ProtoMessage) -> bool {
    &&& (msg.role == 1 || msg.role == 2)
    &&& forall|i: int| 0 <= i < msg.parts@.len() ==> #[trigger] supported_content(msg.parts@[i].content)
    &&& (msg.message_id@.len() > 0 ==> uuid_parse(msg.message_id@) is Some)
}

/// Convert a wire message to a task message: the role must be known and
/// every part must have supported content; an empty message identifier is
/// replaced by a fresh one, a non-empty one must be a UUID.
///
/// # Errors
///
/// [`ConvertError::InvalidArgument`] for an unknown role, a part without
/// content, or a malformed identifier; [`ConvertError::Unimplemented`] for
/// raw parts.
pub fn proto_message_to_core(msg: &ProtoMessage) -> (r: Result<TaskMessage, ConvertError>)
    ensures
        r matches Ok(m) ==> is_core_of_proto(m, *msg),
        r is Ok <==> proto_convertible(*msg),
{
    let role = match proto_role_to_core(msg.role) {
        Ok(r) => r,
        Err(e) => return Err(e),
    };
    let mut parts: Vec<Part> = Vec::new();
    let mut i: usize = 0;
    while i < msg.parts.len()
        invariant
            i <= msg.parts@.len(),
            parts@.len() == i,
            forall|j: int| 0 <= j < i ==> proto_content_view(#[trigger] msg.parts@[j].content) == Some(
                spec_part_content(parts@[j]@),
            ),
            forall|j: int| 0 <= j < i ==> #[trigger] supported_content(msg.parts@[j].content),
        decreases msg.parts.len() - i,
    {
        match proto_part_to_core(&msg.parts[i]) {
            Ok(p) => {
                parts.push(p);
            },
            Err(e) => {
                assert(!supported_content(msg.parts@[i as int].content));
                return Err(e);
            },
        }
        i = i + 1;
    }
    let id = if msg.message_id.as_str().is_empty() {
        MessageId::new()
    } else {
        match MessageId::from_text(msg.message_id.as_str()) {
            Ok(id) => id,
            Err(_) => {
                return Err(ConvertError::InvalidArgument(String::from_str("invalid message_id UUID")));
            },
        }
    };
    Ok(TaskMessage { id, role, parts, metadata: clone_opt_string(&msg.metadata) })
}

// ── Request fields ───────────────────────────────────────────────────────────

/// The message a send request carries.
///
/// # Errors
///
/// [`ConvertError::InvalidArgument`] (`message is required`) when absent.
pub fn require_message(message: Option<ProtoMessage>) -> (r: Result<ProtoMessage, ConvertError>)
    ensures
        match message {
            Some(m) => r matches Ok(x) && x == m,
            None => r matches Err(ConvertError::InvalidArgument(e)) && e@ == "message is required"@,
        },
{
    match message {
        Some(m) => Ok(m),
        None => Err(ConvertError::InvalidArgument(String::from_str("message is required"))),
    }
}

/// The context a sent message names: none when the field is empty.
///
/// # Errors
///
/// [`ConvertError::InvalidArgument`] (`invalid context_id`) when the field
/// is not a UUID.
pub fn parse_context_id(text: &str) -> (r: Result<Option<ContextId>, ConvertError>)
    ensures
        text@.len() == 0 ==> r == Ok::<Option<ContextId>, ConvertError>(None),
        text@.len() > 0 ==> match uuid_parse(text@) {
            Some(v) => r == Ok::<Option<ContextId>, ConvertError>(Some(ContextId(v))),
            None => r matches Err(ConvertError::InvalidArgument(e)) && e@ == "invalid context_id"@,
        },
{
    if text.is_empty() {
        return Ok(None);
    }
    match ContextId::from_text(text) {
        Ok(c) => Ok(Some(c)),
        Err(_) => Err(ConvertError::InvalidArgument(String::from_str("invalid context_id"))),
    }
}

/// The task a request names.
///
/// # Errors
///
/// [`ConvertError::InvalidArgument`] (`invalid task id`) when the field is
/// not a UUID.
pub fn parse_task_id(text: &str) -> (r: Result<TaskId, ConvertError>)
    ensures
        match uuid_parse(text@) {
            Some(v) => r == Ok::<TaskId, ConvertError>(TaskId(v)),
            None => r matches Err(ConvertError::InvalidArgument(e)) && e@ == "invalid task id"@,
        },
{
    match TaskId::from_text(text) {
        Ok(t) => Ok(t),
        Err(_) => Err(ConvertError::InvalidArgument(String::from_str("invalid task id"))),
    }
}

/// The push-notification configuration a request names.
///
/// # Errors
///
/// [`ConvertError::InvalidArgument`] (`invalid push notification config
/// id`) when the field is not a UUID.
pub fn parse_push_config_id(text: &str) -> (r: Result<PushNotificationId, ConvertError>)
    ensures
        match uuid_parse(text@) {
            Some(v) => r == Ok::<PushNotificationId, ConvertError>(PushNotificationId(v)),
            None => r matches Err(ConvertError::InvalidArgument(e)) && e@ == "invalid push notification config id"@,
        },
{
    match PushNotificationId::from_text(text) {
        Ok(t) => Ok(t),
        Err(_) => Err(ConvertError::InvalidArgument(String::from_str("invalid push notification config id"))),
    }
}

// ── Push-notification configurations ─────────────────────────────────────────

/// Wire credentials of a webhook.
#[derive(Debug)]
pub struct ProtoAuthenticationInfo {
    pub scheme: String,
    pub credentials: String,
}

/// A webhook configuration on the wire.
#[derive(Debug)]
pub struct ProtoPushConfig {
    pub tenant: String,
    pub id: String,
    pub task_id: String,
    pub url: String,
    pub token: String,
    pub authentication: Option<ProtoAuthenticationInfo>,
}

/// The view of optional wire credentials.
pub open spec fn proto_auth_view(a: Option<ProtoAuthenticationInfo>) -> Option<AuthView> {
    match a {
        Some(a) => Some((a.scheme@, a.credentials@)),
        None => None,
    }
}

/// Convert a webhook configuration to its wire form: identifiers as text,
/// URL, token and credentials as they are, no tenant.
pub fn push_config_to_proto(cfg: &PushNotificationConfig) -> (r: ProtoPushConfig)
    ensures
        r.tenant@.len() == 0,
        r.id@ == uuid_text(cfg.id.0),
        r.task_id@ == uuid_text(cfg.task_id.0),
        r.url@ == cfg.url@,
        r.token@ == cfg.token@,
        proto_auth_view(r.authentication) == auth_view(cfg.authentication),
{
    let authentication = match &cfg.authentication {
        Some(a) => Some(ProtoAuthenticationInfo { scheme: a.scheme.clone(), credentials: a.credentials.clone() }),
        None => None,
    };
    ProtoPushConfig {
        tenant: String::new(),
        id: cfg.id.to_string(),
        task_id: cfg.task_id.to_string(),
        url: cfg.url.clone(),
        token: cfg.token.clone(),
        authentication,
    }
}

/// A task message survives a round trip through its wire form: the wire
/// form always converts back, and what it converts back to is the same
/// message (identifier, role, parts and metadata).
pub proof fn lemma_message_round_trip(msg: TaskMessage, p: ProtoMessage, back: TaskMessage)
    requires
        is_proto_of_message(p, msg),
        is_core_of_proto(back, p),
    ensures
        proto_convertible(p),
        back@ == msg@,
{
    assert(p.message_id@.len() == 36);
    assert forall|i: int| 0 <= i < p.parts@.len() implies #[trigger] supported_content(p.parts@[i].content) by {
        assert(proto_content_view(p.parts@[i].content) == Some(spec_part_content(msg.parts@[i]@)));
        match p.parts@[i].content {
            Some(ProtoPartContent::Raw(_)) => {
                match msg.parts@[i]@ {
                    PartView::Text(_) => {},
                    PartView::Url(_) => {},
                    PartView::Data(_) => {},
                }
            },
            _ => {},
        }
    }
    assert forall|i: int| 0 <= i < msg.parts@.len() implies back.parts@[i]@ == msg.parts@[i]@ by {
        assert(proto_content_view(p.parts@[i].content) == Some(spec_part_content(msg.parts@[i]@)));
        assert(proto_content_view(p.parts@[i].content) == Some(spec_part_content(back.parts@[i]@)));
        match (back.parts@[i]@, msg.parts@[i]@) {
            (PartView::Text(_), PartView::Text(_)) => {},
            (PartView::Url(_), PartView::Url(_)) => {},
            (PartView::Data(_), PartView::Data(_)) => {},
            _ => {},
        }
    }
    assert(back@.parts =~= msg@.parts);
    match (back.role, msg.role) {
        (MessageRole::User, MessageRole::User) => {},
        (MessageRole::Agent, MessageRole::Agent) => {},
        _ => {},
    }
}

/// A state survives a round trip through its wire number.
pub proof fn lemma_state_round_trip(s: TaskState)
    ensures
        spec_state_of_number(spec_state_number(s)) == Some(s),
{
}

} // verus!
