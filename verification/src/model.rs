//! Core domain types: agents, tools, conversations, messages and tasks.
//!
//! Each type has a mathematical view (its `...View` counterpart) in which
//! strings are character sequences and vectors are sequences; the
//! registries and managers state their contracts over these views.

use vstd::prelude::*;

use crate::ids::{AgentId, ArtifactId, ContextId, ConversationId, MessageId, TaskId, ToolId};

verus! {

// ── Time ─────────────────────────────────────────────────────────────────────

/// A wall-clock instant in UTC: whole seconds since the Unix epoch plus the
/// sub-second part in nanoseconds.
#[derive(Clone, Copy, Debug, PartialEq, Eq, Structural)]
pub struct Timestamp {
    pub secs: i64,
    pub nanos: u32,
}

/// `chrono::Utc::now`: the current wall-clock time.
///
/// The time is whatever the system clock says; the contract states only
/// the range chrono documents for the sub-second part (leap seconds may
/// carry it past one second).
#[verifier::external_body]
pub(crate) fn now() -> (t: Timestamp)
    ensures
        t.nanos < 2_000_000_000,
{
    let n = chrono::Utc::now();
    Timestamp { secs: n.timestamp(), nanos: n.timestamp_subsec_nanos() }
}

// ── Strings ──────────────────────────────────────────────────────────────────

/// The views of a sequence of strings.
pub open spec fn strings_view(v: Seq<String>) -> Seq<Seq<char>> {
    v.map_values(|s: String| s@)
}

/// A copy of a vector of strings with the same contents.
pub fn clone_strings(v: &Vec<String>) -> (r: Vec<String>)
    ensures
        strings_view(r@) == strings_view(v@),
{
    let mut r: Vec<String> = Vec::new();
    let mut i: usize = 0;
    while i < v.len()
        invariant
            i <= v.len(),
            r@.len() == i,
            forall|j: int| 0 <= j < i ==> #[trigger] r@[j]@ == v@[j]@,
        decreases v.len() - i,
    {
        r.push(v[i].clone());
        i = i + 1;
    }
    assert(strings_view(r@) =~= strings_view(v@));
    r
}

/// A copy of an optional string.
pub fn clone_opt_string(v: &Option<String>) -> (r: Option<String>)
    ensures
        r == *v,
{
    match v {
        Some(s) => Some(s.clone()),
        None => None,
    }
}

// ── Agents ───────────────────────────────────────────────────────────────────

/// Lifecycle state of a registered agent.
#[derive(Clone, Copy, Debug, PartialEq, Eq, Structural)]
pub enum AgentStatus {
    /// The agent is connected and accepting work.
    Connected,
    /// The agent is not currently reachable.
    Disconnected,
}

/// Capabilities an agent declares when it registers.
#[derive(Debug)]
pub struct AgentCapabilities {
    /// Free-form skill tags (e.g. `review`, `lint`).
    pub skill_tags: Vec<String>,
}

impl View for AgentCapabilities {
    type V = Seq<Seq<char>>;

    open spec fn view(&self) -> Seq<Seq<char>> {
        strings_view(self.skill_tags@)
    }
}

impl Clone for AgentCapabilities {
    fn clone(&self) -> (r: Self)
        ensures
            r@ == self@,
    {
        AgentCapabilities { skill_tags: clone_strings(&self.skill_tags) }
    }
}

/// The view of optional capabilities.
pub open spec fn caps_view(c: Option<AgentCapabilities>) -> Option<Seq<Seq<char>>> {
    match c {
        Some(c) => Some(c@),
        None => None,
    }
}

/// A copy of optional capabilities.
pub fn clone_caps(c: &Option<AgentCapabilities>) -> (r: Option<AgentCapabilities>)
    ensures
        caps_view(r) == caps_view(*c),
{
    match c {
        Some(c) => Some(c.clone()),
        None => None,
    }
}

/// Metadata for a registered agent.
#[derive(Debug)]
pub struct AgentInfo {
    /// Stable identity for this agent.
    pub id: AgentId,
    /// Display name of the agent, unique within the registry.
    pub name: String,
    /// Wall-clock time at which the agent first registered.
    pub registered_at: Timestamp,
    /// Current connectivity status.
    pub status: AgentStatus,
    /// Optional declared capabilities.
    pub capabilities: Option<AgentCapabilities>,
}

/// The view of an [`AgentInfo`].
pub struct AgentInfoView {
    pub id: AgentId,
    pub name: Seq<char>,
    pub registered_at: Timestamp,
    pub status: AgentStatus,
    pub capabilities: Option<Seq<Seq<char>>>,
}

impl View for AgentInfo {
    type V = AgentInfoView;

    open spec fn view(&self) -> AgentInfoView {
        AgentInfoView {
            id: self.id,
            name: self.name@,
            registered_at: self.registered_at,
            status: self.status,
            capabilities: caps_view(self.capabilities),
        }
    }
}

impl Clone for AgentInfo {
    fn clone(&self) -> (r: Self)
        ensures
            r@ == self@,
    {
        AgentInfo {
            id: self.id,
            name: self.name.clone(),
            registered_at: self.registered_at,
            status: self.status,
            capabilities: clone_caps(&self.capabilities),
        }
    }
}

// ── Tools ────────────────────────────────────────────────────────────────────

/// Who provides a tool: an agent or the daemon itself.
#[derive(Clone, Copy, Debug, PartialEq, Eq, Structural)]
pub enum ToolProvider {
    /// The tool is provided by a connected agent.
    Agent { agent_id: AgentId },
    /// The tool is provided by the daemon itself.
    BuiltIn,
}

/// Metadata for a registered tool.
///
/// The JSON schemas are held as JSON text.
#[derive(Debug)]
pub struct ToolInfo {
    /// Stable identity for this tool.
    pub id: ToolId,
    /// Human-readable tool name (e.g. `"code.scan_repo"`).
    pub name: String,
    /// Description of what the tool does.
    pub description: String,
    /// JSON Schema (as JSON text) describing the expected input payload.
    pub input_schema: String,
    /// JSON Schema (as JSON text) describing the output payload.
    pub output_schema: String,
    /// Who provides this tool.
    pub provider: ToolProvider,
}

/// The view of a [`ToolInfo`].
pub struct ToolInfoView {
    pub id: ToolId,
    pub name: Seq<char>,
    pub description: Seq<char>,
    pub input_schema: Seq<char>,
    pub output_schema: Seq<char>,
    pub provider: ToolProvider,
}

impl View for ToolInfo {
    type V = ToolInfoView;

    open spec fn view(&self) -> ToolInfoView {
        ToolInfoView {
            id: self.id,
            name: self.name@,
            description: self.description@,
            input_schema: self.input_schema@,
            output_schema: self.output_schema@,
            provider: self.provider,
        }
    }
}

impl Clone for ToolInfo {
    fn clone(&self) -> (r: Self)
        ensures
            r@ == self@,
    {
        ToolInfo {
            id: self.id,
            name: self.name.clone(),
            description: self.description.clone(),
            input_schema: self.input_schema.clone(),
            output_schema: self.output_schema.clone(),
            provider: self.provider,
        }
    }
}

// ── Conversations ────────────────────────────────────────────────────────────

/// A single message exchanged within a [`Conversation`].
#[derive(Debug)]
pub struct ChatMessage {
    /// Stable identity for this message.
    pub id: MessageId,
    /// The conversation this message belongs to.
    pub conversation_id: ConversationId,
    /// The agent that sent this message.
    pub sender: AgentId,
    /// UTF-8 message body.
    pub content: String,
    /// Wall-clock time at which the message was created.
    pub timestamp: Timestamp,
}

/// The view of a [`ChatMessage`].
pub struct ChatMessageView {
    pub id: MessageId,
    pub conversation_id: ConversationId,
    pub sender: AgentId,
    pub content: Seq<char>,
    pub timestamp: Timestamp,
}

impl View for ChatMessage {
    type V = ChatMessageView;

    open spec fn view(&self) -> ChatMessageView {
        ChatMessageView {
            id: self.id,
            conversation_id: self.conversation_id,
            sender: self.sender,
            content: self.content@,
            timestamp: self.timestamp,
        }
    }
}

impl Clone for ChatMessage {
    fn clone(&self) -> (r: Self)
        ensures
            r@ == self@,
    {
        ChatMessage {
            id: self.id,
            conversation_id: self.conversation_id,
            sender: self.sender,
            content: self.content.clone(),
            timestamp: self.timestamp,
        }
    }
}

/// A named thread of conversation between one or more agents.
///
/// `participants` holds each agent once; messages are stored separately.
#[derive(Debug)]
pub struct Conversation {
    /// Stable identity for this conversation.
    pub id: ConversationId,
    /// Optional display name (e.g. `"planning session"`).
    pub name: Option<String>,
    /// Agents participating in this conversation, each listed once.
    pub participants: Vec<AgentId>,
    /// Wall-clock time at which the conversation was created.
    pub created_at: Timestamp,
}

/// The view of a [`Conversation`].
pub struct ConversationView {
    pub id: ConversationId,
    pub name: Option<Seq<char>>,
    pub participants: Seq<AgentId>,
    pub created_at: Timestamp,
}

/// The view of an optional string.
pub open spec fn opt_view(s: Option<String>) -> Option<Seq<char>> {
    match s {
        Some(s) => Some(s@),
        None => None,
    }
}

impl View for Conversation {
    type V = ConversationView;

    open spec fn view(&self) -> ConversationView {
        ConversationView {
            id: self.id,
            name: opt_view(self.name),
            participants: self.participants@,
            created_at: self.created_at,
        }
    }
}

impl Clone for Conversation {
    fn clone(&self) -> (r: Self)
        ensures
            r@ == self@,
    {
        let mut participants: Vec<AgentId> = Vec::new();
        let mut i: usize = 0;
        while i < self.participants.len()
            invariant
                i <= self.participants.len(),
                participants@ == self.participants@.subrange(0, i as int),
            decreases self.participants.len() - i,
        {
            participants.push(self.participants[i]);
            i = i + 1;
            assert(participants@ =~= self.participants@.subrange(0, i as int));
        }
        assert(participants@ =~= self.participants@);
        Conversation {
            id: self.id,
            name: clone_opt_string(&self.name),
            participants,
            created_at: self.created_at,
        }
    }
}

} // verus!
