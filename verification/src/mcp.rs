//! The Model Context Protocol surface: the `trumpet://` resources and the
//! prompt templates, how a request picks one, and the text a prompt
//! renders to.

use vstd::prelude::*;
use vstd::string::{StringExecFns, StrSliceExecFns};

use crate::events::{is_tool_event, Event};
use crate::ids::{uuid_from_text, uuid_parse, uuid_parse_outcome, uuid_text, uuid_to_text, AgentId, ConversationId, TaskId};
use crate::task_types::{spec_state_name, TaskState};
use crate::model::{ChatMessage, Timestamp};
use crate::sort::{sort_ids, sorted_ids};

verus! {

/// Why an MCP request fails.
#[derive(Debug)]
pub enum McpProblem {
    /// The request's parameters are wrong (JSON-RPC invalid params).
    InvalidParams(String),
    /// Something failed inside the daemon.
    Internal(String),
}

// ── Resources ────────────────────────────────────────────────────────────────

/// A resource the daemon lists: its URI, name and description (all served
/// as `application/json`).
#[derive(Debug)]
pub struct ResourceDescriptor {
    pub uri: String,
    pub name: String,
    pub description: String,
}

/// The collection-level resources, in the order they are listed.
pub fn resource_catalog() -> (r: Vec<ResourceDescriptor>)
    ensures
        r@.len() == 4,
        r@[0].uri@ == "trumpet://agents"@ && r@[0].name@ == "agents"@ && r@[0].description@ == "All registered agents"@,
        r@[1].uri@ == "trumpet://conversations"@ && r@[1].name@ == "conversations"@
            && r@[1].description@ == "All conversations with their participants"@,
        r@[2].uri@ == "trumpet://tasks"@ && r@[2].name@ == "tasks"@ && r@[2].description@ == "All A2A tasks (any status)"@,
        r@[3].uri@ == "trumpet://tools"@ && r@[3].name@ == "tools"@ && r@[3].description@ == "Tool registry contents"@,
{
    let mut r: Vec<ResourceDescriptor> = Vec::new();
    r.push(ResourceDescriptor {
        uri: String::from_str("trumpet://agents"),
        name: String::from_str("agents"),
        description: String::from_str("All registered agents"),
    });
    r.push(ResourceDescriptor {
        uri: String::from_str("trumpet://conversations"),
        name: String::from_str("conversations"),
        description: String::from_str("All conversations with their participants"),
    });
    r.push(ResourceDescriptor {
        uri: String::from_str("trumpet://tasks"),
        name: String::from_str("tasks"),
        description: String::from_str("All A2A tasks (any status)"),
    });
    r.push(ResourceDescriptor {
        uri: String::from_str("trumpet://tools"),
        name: String::from_str("tools"),
        description: String::from_str("Tool registry contents"),
    });
    r
}

/// What a `trumpet://` URI addresses.
#[derive(Clone, Copy, Debug, PartialEq, Eq, Structural)]
pub enum ResourceTarget {
    Agents,
    Conversations,
    Tasks,
    Tools,
    Agent(AgentId),
    Conversation(ConversationId),
    Task(TaskId),
}

/// The part of `s` after `prefix`, if `s` starts with it.
pub open spec fn after_prefix(s: Seq<char>, prefix: Seq<char>) -> Option<Seq<char>> {
    if prefix.is_prefix_of(s) {
        Some(s.skip(prefix.len() as int))
    } else {
        None
    }
}

/// Whether `r` is the outcome that classifying `uri` calls for.
pub open spec fn spec_classify(uri: Seq<char>, r: Result<ResourceTarget, McpProblem>) -> bool {
    if uri == "trumpet://agents"@ {
        r == Ok::<ResourceTarget, McpProblem>(ResourceTarget::Agents)
    } else if uri == "trumpet://conversations"@ {
        r == Ok::<ResourceTarget, McpProblem>(ResourceTarget::Conversations)
    } else if uri == "trumpet://tasks"@ {
        r == Ok::<ResourceTarget, McpProblem>(ResourceTarget::Tasks)
    } else if uri == "trumpet://tools"@ {
        r == Ok::<ResourceTarget, McpProblem>(ResourceTarget::Tools)
    } else if after_prefix(uri, "trumpet://agents/"@) is Some {
        let rest = after_prefix(uri, "trumpet://agents/"@).unwrap();
        match uuid_parse(rest) {
            Some(v) => r == Ok::<ResourceTarget, McpProblem>(ResourceTarget::Agent(AgentId(v))),
            None => r matches Err(McpProblem::InvalidParams(m)) && m@ == "invalid agent id: "@ + rest,
        }
    } else if after_prefix(uri, "trumpet://conversations/"@) is Some {
        let rest = after_prefix(uri, "trumpet://conversations/"@).unwrap();
        match uuid_parse(rest) {
            Some(v) => r == Ok::<ResourceTarget, McpProblem>(ResourceTarget::Conversation(ConversationId(v))),
            None => r matches Err(McpProblem::InvalidParams(m)) && m@ == "invalid conversation id: "@ + rest,
        }
    } else if after_prefix(uri, "trumpet://tasks/"@) is Some {
        let rest = after_prefix(uri, "trumpet://tasks/"@).unwrap();
        match uuid_parse(rest) {
            Some(v) => r == Ok::<ResourceTarget, McpProblem>(ResourceTarget::Task(TaskId(v))),
            None => r matches Err(McpProblem::InvalidParams(m)) && m@ == "invalid task id: "@ + rest,
        }
    } else {
        r matches Err(McpProblem::InvalidParams(m)) && m@ == "unknown resource URI: "@ + uri
    }
}

/// `uri` without `prefix`, if it starts with it.
fn strip<'a>(uri: &'a str, prefix: &str) -> (r: Option<&'a str>)
    ensures
        match after_prefix(uri@, prefix@) {
            Some(rest) => r matches Some(x) && x@ == rest,
            None => r is None,
        },
{
    let n = uri.unicode_len();
    let m = prefix.unicode_len();
    if m > n {
        return None;
    }
    let mut i: usize = 0;
    while i < m
        invariant
            m == prefix@.len(),
            n == uri@.len(),
            m <= n,
            i <= m,
            forall|j: int| 0 <= j < i ==> prefix@[j] == uri@[j],
        decreases m - i,
    {
        if uri.get_char(i) != prefix.get_char(i) {
            return None;
        }
        i = i + 1;
    }
    let rest = uri.substring_char(m, n);
    assert(rest@ =~= uri@.skip(m as int));
    Some(rest)
}

/// Which resource a `trumpet://` URI addresses.
///
/// # Errors
///
/// [`McpProblem::InvalidParams`] for an item URI whose identifier is not a
/// UUID, and for any other URI.
pub fn classify_resource_uri(uri: &str) -> (r: Result<ResourceTarget, McpProblem>)
    ensures
        spec_classify(uri@, r),
{
    proof {
        reveal_strlit("trumpet://agents");
        reveal_strlit("trumpet://conversations");
        reveal_strlit("trumpet://tasks");
        reveal_strlit("trumpet://tools");
    }
    let u = uri.to_owned();
    if u == String::from_str("trumpet://agents") {
        return Ok(ResourceTarget::Agents);
    }
    if u == String::from_str("trumpet://conversations") {
        return Ok(ResourceTarget::Conversations);
    }
    if u == String::from_str("trumpet://tasks") {
        return Ok(ResourceTarget::Tasks);
    }
    if u == String::from_str("trumpet://tools") {
        return Ok(ResourceTarget::Tools);
    }
    if let Some(rest) = strip(uri, "trumpet://agents/") {
        return match AgentId::from_text(rest) {
            Ok(id) => Ok(ResourceTarget::Agent(id)),
            Err(_) => {
                let mut s = String::from_str("invalid agent id: ");
                s.append(rest);
                Err(McpProblem::InvalidParams(s))
            },
        };
    }
    if let Some(rest) = strip(uri, "trumpet://conversations/") {
        return match ConversationId::from_text(rest) {
            Ok(id) => Ok(ResourceTarget::Conversation(id)),
            Err(_) => {
                let mut s = String::from_str("invalid conversation id: ");
                s.append(rest);
                Err(McpProblem::InvalidParams(s))
            },
        };
    }
    if let Some(rest) = strip(uri, "trumpet://tasks/") {
        return match TaskId::from_text(rest) {
            Ok(id) => Ok(ResourceTarget::Task(id)),
            Err(_) => {
                let mut s = String::from_str("invalid task id: ");
                s.append(rest);
                Err(McpProblem::InvalidParams(s))
            },
        };
    }
    let mut s = String::from_str("unknown resource URI: ");
    s.append(uri);
    Err(McpProblem::InvalidParams(s))
}

/// The complaint about an addressed item that does not exist, e.g.
/// `agent not found: {rest}`.
pub fn not_found(kind: &str, rest: &str) -> (r: McpProblem)
    ensures
        r matches McpProblem::InvalidParams(m) && m@ == kind@ + " not found: "@ + rest@,
{
    let mut s = kind.to_owned();
    s.append(" not found: ");
    s.append(rest);
    McpProblem::InvalidParams(s)
}

// ── Prompts ──────────────────────────────────────────────────────────────────

/// An argument a prompt takes.
#[derive(Debug)]
pub struct PromptArgumentSpec {
    pub name: String,
    pub description: String,
    pub required: bool,
}

/// A prompt the daemon offers.
#[derive(Debug)]
pub struct PromptSpec {
    pub name: String,
    pub description: String,
    pub arguments: Vec<PromptArgumentSpec>,
}

fn argument(name: &str, description: &str, required: bool) -> (r: PromptArgumentSpec)
    ensures
        r.name@ == name@ && r.description@ == description@ && r.required == required,
{
    PromptArgumentSpec { name: name.to_owned(), description: description.to_owned(), required }
}

/// The prompts the daemon offers, in the order they are listed: task
/// summaries, agent assignment and conversation review.
pub fn prompt_catalog() -> (r: Vec<PromptSpec>)
    ensures
        r@.len() == 3,
        r@[0].name@ == "summarize_task"@ && r@[0].arguments@.len() == 1
            && r@[0].arguments@[0].name@ == "task_id"@ && r@[0].arguments@[0].required,
        r@[1].name@ == "assign_task"@ && r@[1].arguments@.len() == 2
            && r@[1].arguments@[0].name@ == "task_description"@ && r@[1].arguments@[0].required
            && r@[1].arguments@[1].name@ == "required_tags"@ && !r@[1].arguments@[1].required,
        r@[2].name@ == "inspect_conversation"@ && r@[2].arguments@.len() == 1
            && r@[2].arguments@[0].name@ == "conversation_id"@ && r@[2].arguments@[0].required,
{
    let mut a0: Vec<PromptArgumentSpec> = Vec::new();
    a0.push(argument("task_id", "UUID of the task to summarise", true));
    let mut a1: Vec<PromptArgumentSpec> = Vec::new();
    a1.push(argument("task_description", "What the agent must do", true));
    a1.push(argument("required_tags", "Comma-separated capability tags the agent must declare", false));
    let mut a2: Vec<PromptArgumentSpec> = Vec::new();
    a2.push(argument("conversation_id", "UUID of the conversation", true));
    let mut r: Vec<PromptSpec> = Vec::new();
    r.push(PromptSpec {
        name: String::from_str("summarize_task"),
        description: String::from_str("Summarise a task's history and current state."),
        arguments: a0,
    });
    r.push(PromptSpec {
        name: String::from_str("assign_task"),
        description: String::from_str(
            "Pick the best agent for a task description, given the registered agent pool.",
        ),
        arguments: a1,
    });
    r.push(PromptSpec {
        name: String::from_str("inspect_conversation"),
        description: String::from_str("Render a full conversation thread for review."),
        arguments: a2,
    });
    r
}

/// The prompts a request can name.
#[derive(Clone, Copy, Debug, PartialEq, Eq, Structural)]
pub enum PromptKind {
    SummarizeTask,
    AssignTask,
    InspectConversation,
}

/// Which prompt a request names.
///
/// # Errors
///
/// [`McpProblem::InvalidParams`] (`unknown prompt: {name}`) for any other
/// name.
pub fn route_prompt(name: &str) -> (r: Result<PromptKind, McpProblem>)
    ensures
        name@ == "summarize_task"@ ==> r == Ok::<PromptKind, McpProblem>(PromptKind::SummarizeTask),
        name@ == "assign_task"@ ==> r == Ok::<PromptKind, McpProblem>(PromptKind::AssignTask),
        name@ == "inspect_conversation"@ ==> r == Ok::<PromptKind, McpProblem>(PromptKind::InspectConversation),
        name@ != "summarize_task"@ && name@ != "assign_task"@ && name@ != "inspect_conversation"@
            ==> (r matches Err(McpProblem::InvalidParams(m)) && m@ == "unknown prompt: "@ + name@),
{
    proof {
        reveal_strlit("summarize_task");
        reveal_strlit("assign_task");
        reveal_strlit("inspect_conversation");
        assert("summarize_task"@.len() == 14);
        assert("assign_task"@.len() == 11);
        assert("inspect_conversation"@.len() == 20);
    }
    let n = name.to_owned();
    if n == String::from_str("summarize_task") {
        Ok(PromptKind::SummarizeTask)
    } else if n == String::from_str("assign_task") {
        Ok(PromptKind::AssignTask)
    } else if n == String::from_str("inspect_conversation") {
        Ok(PromptKind::InspectConversation)
    } else {
        let mut s = String::from_str("unknown prompt: ");
        s.append(name);
        Err(McpProblem::InvalidParams(s))
    }
}

/// A required prompt argument: its value, or `missing argument: {name}`.
pub fn required_arg(name: &str, value: Option<String>) -> (r: Result<String, McpProblem>)
    ensures
        value matches Some(v) ==> (r matches Ok(x) && x@ == v@),
        value is None ==> (r matches Err(McpProblem::InvalidParams(m)) && m@ == "missing argument: "@ + name@),
{
    match value {
        Some(v) => Ok(v),
        None => {
            let mut s = String::from_str("missing argument: ");
            s.append(name);
            Err(McpProblem::InvalidParams(s))
        },
    }
}

/// The instruction a task-summary prompt renders to, around the task's
/// JSON.
pub open spec fn spec_summarize_text(body: Seq<char>) -> Seq<char> {
    "Summarise the following Trumpet task. Cover what was requested, what was produced, and the current state. Highlight blockers and any artifacts the operator should review.\n\nTask:\n"@
        + body
}

/// Renders the task-summary prompt for a task's JSON.
pub fn summarize_task_text(body: &str) -> (r: String)
    ensures
        r@ == spec_summarize_text(body@),
{
    let mut s = String::from_str(
        "Summarise the following Trumpet task. Cover what was requested, what was produced, and the current state. Highlight blockers and any artifacts the operator should review.\n\nTask:\n",
    );
    s.append(body);
    s
}

/// The instruction an assignment prompt renders to.
pub open spec fn spec_assign_text(tags: Seq<char>, description: Seq<char>, agents_json: Seq<char>) -> Seq<char> {
    "We have the following Trumpet agents registered. Choose the single best match for the task below. Reply with the agent's `id` and a one-sentence justification grounded in their capability tags.\n\nRequired tags: "@
        + tags + "\n\nTask:\n"@ + description + "\n\nAgents:\n"@ + agents_json
}

/// Renders the assignment prompt for the required tags, the task
/// description and the agents' JSON.
pub fn assign_task_text(tags: &str, description: &str, agents_json: &str) -> (r: String)
    ensures
        r@ == spec_assign_text(tags@, description@, agents_json@),
{
    let mut s = String::from_str(
        "We have the following Trumpet agents registered. Choose the single best match for the task below. Reply with the agent's `id` and a one-sentence justification grounded in their capability tags.\n\nRequired tags: ",
    );
    s.append(tags);
    s.append("\n\nTask:\n");
    s.append(description);
    s.append("\n\nAgents:\n");
    s.append(agents_json);
    s
}

/// The texts of `ids` joined by `", "`.
pub open spec fn joined_ids(ids: Seq<u128>) -> Seq<char>
    decreases ids.len(),
{
    if ids.len() == 0 {
        Seq::empty()
    } else if ids.len() == 1 {
        uuid_text(ids[0])
    } else {
        joined_ids(ids.drop_last()) + ", "@ + uuid_text(ids.last())
    }
}

/// The participants line of a conversation: `(none)` when there are none,
/// otherwise their identifiers in ascending order joined by `", "`.
pub open spec fn spec_participants_text(ids: Seq<u128>) -> Seq<char> {
    if ids.len() == 0 {
        "(none)"@
    } else {
        joined_ids(sorted_ids(ids))
    }
}

/// Renders the participants of a conversation.
pub fn format_participants(participants: &Vec<AgentId>) -> (r: String)
    ensures
        r@ == spec_participants_text(participants@.map_values(|a: AgentId| a.0)),
{
    let ghost ids = participants@.map_values(|a: AgentId| a.0);
    if participants.len() == 0 {
        return String::from_str("(none)");
    }
    let mut raw: Vec<u128> = Vec::new();
    let mut i: usize = 0;
    while i < participants.len()
        invariant
            i <= participants@.len(),
            ids == participants@.map_values(|a: AgentId| a.0),
            raw@ == ids.subrange(0, i as int),
        decreases participants.len() - i,
    {
        raw.push(participants[i].0);
        i = i + 1;
        assert(raw@ =~= ids.subrange(0, i as int));
    }
    assert(raw@ =~= ids);
    let sorted = sort_ids(&raw);
    proof {
        ids.lemma_sort_by_ensures(crate::sort::id_leq());
        vstd::seq_lib::to_multiset_len(ids);
        vstd::seq_lib::to_multiset_len(sorted@);
    }
    let mut s = uuid_to_text(sorted[0]);
    let mut k: usize = 1;
    assert(sorted@.subrange(0, 1) =~= seq![sorted@[0]]);
    while k < sorted.len()
        invariant
            1 <= k <= sorted@.len(),
            s@ == joined_ids(sorted@.subrange(0, k as int)),
        decreases sorted.len() - k,
    {
        s.append(", ");
        let t = uuid_to_text(sorted[k]);
        s.append(t.as_str());
        proof {
            assert(sorted@.subrange(0, k + 1).drop_last() =~= sorted@.subrange(0, k as int));
        }
        k = k + 1;
    }
    assert(sorted@.subrange(0, k as int) =~= sorted@);
    s
}

/// The text `chrono` renders for an instant with `%Y-%m-%dT%H:%M:%SZ`.
pub uninterp spec fn utc_seconds_text(t: Timestamp) -> Seq<char>;

/// Formats an instant as `YYYY-MM-DDTHH:MM:SSZ` in UTC with `chrono`.
///
/// The calendar arithmetic is chrono's; the contract names the result. An
/// instant chrono cannot represent renders as an empty string.
#[verifier::external_body]
fn utc_seconds(t: Timestamp) -> (r: String)
    ensures
        r@ == utc_seconds_text(t),
{
    match chrono::DateTime::from_timestamp(t.secs, t.nanos) {
        Some(dt) => dt.format("%Y-%m-%dT%H:%M:%SZ").to_string(),
        None => String::new(),
    }
}

/// One line of a rendered conversation: `[time] sender: content`.
pub open spec fn spec_message_line(m: ChatMessage) -> Seq<char> {
    "["@ + utc_seconds_text(m.timestamp) + "] "@ + uuid_text(m.sender.0) + ": "@ + m.content@ + "\n"@
}

/// The lines of a rendered conversation.
pub open spec fn message_lines(ms: Seq<ChatMessage>) -> Seq<char>
    decreases ms.len(),
{
    if ms.len() == 0 {
        Seq::empty()
    } else {
        message_lines(ms.drop_last()) + spec_message_line(ms.last())
    }
}

/// The conversation-review prompt: a header naming the conversation and
/// its participants, then one line per message, oldest first.
pub open spec fn spec_inspect_text(
    name: Option<Seq<char>>,
    id: ConversationId,
    participants: Seq<u128>,
    ms: Seq<ChatMessage>,
) -> Seq<char> {
    "Review the following Trumpet conversation thread and summarise the key decisions, action items, and any unresolved questions.\n\n"@
        + "Conversation: "@ + (match name { Some(n) => n, None => "(unnamed)"@ }) + " (id="@ + uuid_text(id.0)
        + ")\nParticipants: "@ + spec_participants_text(participants) + "\n\n"@ + message_lines(ms)
}

/// Renders the conversation-review prompt.
pub fn inspect_conversation_text(
    name: Option<&str>,
    id: ConversationId,
    participants: &Vec<AgentId>,
    messages: &[ChatMessage],
) -> (r: String)
    ensures
        r@ == spec_inspect_text(
            match name { Some(n) => Some(n@), None => None },
            id,
            participants@.map_values(|a: AgentId| a.0),
            messages@,
        ),
{
    let mut s = String::from_str(
        "Review the following Trumpet conversation thread and summarise the key decisions, action items, and any unresolved questions.\n\n",
    );
    s.append("Conversation: ");
    match name {
        Some(n) => s.append(n),
        None => s.append("(unnamed)"),
    }
    s.append(" (id=");
    let t = uuid_to_text(id.0);
    s.append(t.as_str());
    s.append(")\nParticipants: ");
    let p = format_participants(participants);
    s.append(p.as_str());
    s.append("\n\n");
    let ghost head = s@;
    let mut i: usize = 0;
    assert(messages@.subrange(0, 0) =~= Seq::<ChatMessage>::empty());
    while i < messages.len()
        invariant
            i <= messages@.len(),
            s@ == head + message_lines(messages@.subrange(0, i as int)),
        decreases messages.len() - i,
    {
        let m = &messages[i];
        s.append("[");
        let ts = utc_seconds(m.timestamp);
        s.append(ts.as_str());
        s.append("] ");
        let who = uuid_to_text(m.sender.0);
        s.append(who.as_str());
        s.append(": ");
        s.append(m.content.as_str());
        s.append("\n");
        proof {
            assert(messages@.subrange(0, i + 1).drop_last() =~= messages@.subrange(0, i as int));
            assert(messages@.subrange(0, i + 1).last() == *m);
        }
        i = i + 1;
    }
    assert(messages@.subrange(0, i as int) =~= messages@);
    s
}

// ── Tool arguments ───────────────────────────────────────────────────────────

/// Read the UUID argument `field` of a tool call.
///
/// # Errors
///
/// [`McpProblem::InvalidParams`] (`invalid {field}: {reason}`, with the
/// UUID parser's reason) when the text is not a UUID.
pub fn parse_uuid_arg(field: &str, text: &str) -> (r: Result<u128, McpProblem>)
    ensures
        match uuid_parse_outcome(text@) {
            Ok(v) => r matches Ok(x) && x == v,
            Err(m) => r matches Err(McpProblem::InvalidParams(e)) && e@ == "invalid "@ + field@ + ": "@ + m,
        },
{
    match uuid_from_text(text) {
        Ok(v) => Ok(v),
        Err(m) => {
            let mut s = String::from_str("invalid ");
            s.append(field);
            s.append(": ");
            s.append(m.as_str());
            Err(McpProblem::InvalidParams(s))
        },
    }
}

/// The complaint about the participant `text` that is not a UUID.
pub open spec fn bad_participant(text: Seq<char>, reason: Seq<char>) -> Seq<char> {
    "invalid agent_id '"@ + text + "': "@ + reason
}

/// Read the participants of a new conversation, in order.
///
/// # Errors
///
/// [`McpProblem::InvalidParams`] naming the first text that is not a UUID.
pub fn parse_participants(texts: &Vec<String>) -> (r: Result<Vec<AgentId>, McpProblem>)
    ensures
        match r {
            Ok(ids) => ids@.len() == texts@.len() && forall|i: int|
                0 <= i < texts@.len() ==> uuid_parse(#[trigger] texts@[i]@) == Some(ids@[i].0),
            Err(e) => exists|i: int|
                0 <= i < texts@.len() && (forall|j: int| 0 <= j < i ==> uuid_parse(#[trigger] texts@[j]@) is Some)
                    && (uuid_parse_outcome(#[trigger] texts@[i]@) matches Err(m)
                    && (e matches McpProblem::InvalidParams(msg) && msg@ == bad_participant(texts@[i]@, m))),
        },
{
    let mut ids: Vec<AgentId> = Vec::new();
    let mut i: usize = 0;
    while i < texts.len()
        invariant
            i <= texts@.len(),
            ids@.len() == i,
            forall|j: int| 0 <= j < i ==> uuid_parse(#[trigger] texts@[j]@) == Some(ids@[j].0),
        decreases texts.len() - i,
    {
        match uuid_from_text(texts[i].as_str()) {
            Ok(v) => {
                ids.push(AgentId(v));
            },
            Err(m) => {
                let mut s = String::from_str("invalid agent_id '");
                s.append(texts[i].as_str());
                s.append("': ");
                s.append(m.as_str());
                proof {
                    assert(forall|j: int| 0 <= j < i ==> uuid_parse(#[trigger] texts@[j]@) is Some);
                }
                return Err(McpProblem::InvalidParams(s));
            },
        }
        i = i + 1;
    }
    Ok(ids)
}

/// Read the `state` filter of a task listing: a snake-case state name.
///
/// # Errors
///
/// [`McpProblem::InvalidParams`] (`invalid state: '{text}'`) for any other
/// text.
pub fn parse_state_arg(text: &str) -> (r: Result<TaskState, McpProblem>)
    ensures
        match r {
            Ok(s) => spec_state_name(s) == text@,
            Err(e) => (forall|s: TaskState| spec_state_name(s) != text@) && (e matches McpProblem::InvalidParams(m)
                && m@ == "invalid state: '"@ + text@ + "'"@),
        },
{
    match TaskState::parse(text) {
        Some(s) => Ok(s),
        None => {
            let mut m = String::from_str("invalid state: '");
            m.append(text);
            m.append("'");
            Err(McpProblem::InvalidParams(m))
        },
    }
}

// ── Tool-list notifications ──────────────────────────────────────────────────

/// Milliseconds the notifier waits after the first tool change before it
/// notifies, so that a burst of changes gives one notification.
pub const COALESCE_WINDOW_MS: u64 = 100;

/// Where the tool-list notifier stands: waiting for a tool change, or
/// collecting a burst of changes until the window closes.
#[derive(Clone, Copy, Debug, PartialEq, Eq, Structural)]
pub enum NotifierState {
    Idle,
    Coalescing,
}

/// What happened to the notifier.
pub enum NotifierInput {
    /// The bus delivered an event.
    BusEvent(Event),
    /// The notifier fell behind the bus.
    BusLagged,
    /// The bus closed.
    BusClosed,
    /// The coalescing window closed.
    WindowElapsed,
    /// The notification was delivered.
    Sent,
    /// The peer refused the notification (it has gone away).
    SendFailed,
}

/// What the notifier does next.
#[derive(Clone, Copy, Debug, PartialEq, Eq, Structural)]
pub enum NotifierAction {
    /// Keep receiving.
    Wait,
    /// Open the coalescing window and keep receiving until it closes.
    OpenWindow,
    /// Send `tools/list_changed` to the peer.
    Notify,
    /// Send `tools/list_changed`, then stop.
    NotifyAndStop,
    /// Stop.
    Stop,
}

/// Whether an input is a tool-registry event.
pub open spec fn is_tool_input(i: NotifierInput) -> bool {
    i matches NotifierInput::BusEvent(e) && (e@ is ToolRegistered || e@ is ToolDeregistered)
}

/// The notifier's step: a tool change while idle opens the window; while
/// the window is open every event joins the burst; the window closing
/// sends one notification; the bus closing stops the notifier, after
/// sending the pending notification if a burst is open; a refused
/// notification stops it.
pub open spec fn spec_notifier_step(s: NotifierState, i: NotifierInput) -> (NotifierState, NotifierAction) {
    match i {
        NotifierInput::BusEvent(_) => if s == NotifierState::Idle && is_tool_input(i) {
            (NotifierState::Coalescing, NotifierAction::OpenWindow)
        } else {
            (s, NotifierAction::Wait)
        },
        NotifierInput::BusLagged => (s, NotifierAction::Wait),
        NotifierInput::BusClosed => if s == NotifierState::Coalescing {
            (NotifierState::Idle, NotifierAction::NotifyAndStop)
        } else {
            (s, NotifierAction::Stop)
        },
        NotifierInput::WindowElapsed => if s == NotifierState::Coalescing {
            (NotifierState::Idle, NotifierAction::Notify)
        } else {
            (s, NotifierAction::Wait)
        },
        NotifierInput::Sent => (s, NotifierAction::Wait),
        NotifierInput::SendFailed => (s, NotifierAction::Stop),
    }
}

/// The notifier's step.
pub fn notifier_step(state: NotifierState, input: NotifierInput) -> (r: (NotifierState, NotifierAction))
    ensures
        r == spec_notifier_step(state, input),
{
    match input {
        NotifierInput::BusEvent(e) => {
            if state == NotifierState::Idle && is_tool_event(&e) {
                (NotifierState::Coalescing, NotifierAction::OpenWindow)
            } else {
                (state, NotifierAction::Wait)
            }
        },
        NotifierInput::BusLagged => (state, NotifierAction::Wait),
        NotifierInput::BusClosed => {
            if state == NotifierState::Coalescing {
                (NotifierState::Idle, NotifierAction::NotifyAndStop)
            } else {
                (state, NotifierAction::Stop)
            }
        },
        NotifierInput::WindowElapsed => {
            if state == NotifierState::Coalescing {
                (NotifierState::Idle, NotifierAction::Notify)
            } else {
                (state, NotifierAction::Wait)
            }
        },
        NotifierInput::Sent => (state, NotifierAction::Wait),
        NotifierInput::SendFailed => (state, NotifierAction::Stop),
    }
}

/// The state after a run of inputs, and the number of notifications the
/// run sends.
pub open spec fn notifier_run(s: NotifierState, inputs: Seq<NotifierInput>) -> (NotifierState, nat)
    decreases inputs.len(),
{
    if inputs.len() == 0 {
        (s, 0)
    } else {
        let (s1, n1) = notifier_run(s, inputs.drop_last());
        let (s2, a) = spec_notifier_step(s1, inputs.last());
        (s2, n1 + if a == NotifierAction::Notify || a == NotifierAction::NotifyAndStop { 1nat } else { 0nat })
    }
}

/// Whether an input is delivered by the bus while a window is open:
/// an event of any kind, or a lag report.
pub open spec fn is_bus_input(i: NotifierInput) -> bool {
    i is BusEvent || i is BusLagged
}

/// A burst is coalesced: from idle, a tool change followed by any number
/// of bus events or lag reports and then the window closing sends exactly
/// one notification and leaves the notifier idle again.
pub proof fn lemma_burst_gives_one_notification(first: NotifierInput, rest: Seq<NotifierInput>)
    requires
        is_tool_input(first),
        forall|k: int| 0 <= k < rest.len() ==> #[trigger] is_bus_input(rest[k]),
    ensures
        notifier_run(NotifierState::Idle, seq![first] + rest + seq![NotifierInput::WindowElapsed])
            == (NotifierState::Idle, 1nat),
{
    let whole = seq![first] + rest + seq![NotifierInput::WindowElapsed];
    assert(whole.drop_last() =~= seq![first] + rest);
    lemma_opened_then_absorbed(first, rest);
}

/// From idle, a tool change followed by bus inputs leaves the window open
/// with nothing sent.
proof fn lemma_opened_then_absorbed(first: NotifierInput, rest: Seq<NotifierInput>)
    requires
        is_tool_input(first),
        forall|k: int| 0 <= k < rest.len() ==> #[trigger] is_bus_input(rest[k]),
    ensures
        notifier_run(NotifierState::Idle, seq![first] + rest) == (NotifierState::Coalescing, 0nat),
    decreases rest.len(),
{
    if rest.len() == 0 {
        assert(seq![first] + rest =~= seq![first]);
        assert(seq![first].drop_last() =~= Seq::<NotifierInput>::empty());
        assert(notifier_run(NotifierState::Idle, Seq::<NotifierInput>::empty()) == (NotifierState::Idle, 0nat));
    } else {
        let whole = seq![first] + rest;
        assert(is_bus_input(rest[rest.len() - 1]));
        assert(whole.drop_last() =~= seq![first] + rest.drop_last());
        assert(whole.last() == rest.last());
        lemma_opened_then_absorbed(first, rest.drop_last());
    }
}

} // verus!
