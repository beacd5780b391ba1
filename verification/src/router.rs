//! Task routing: which agent should handle a task, and how a tool
//! invocation is carried out.

use vstd::prelude::*;
use vstd::string::StringExecFns;

use crate::error::Error;
use crate::ids::{hex_char, AgentId, MessageId};
use crate::model::{AgentInfo, AgentInfoView, AgentStatus, ToolInfo, ToolProvider};
use crate::task_types::{MessageRole, Part, PartView, Task, TaskMessage};

verus! {

/// Selects an agent to handle a task from a slice of candidate agents.
pub trait TaskRouter {
    /// The identifier of the selected agent, or `None` when no suitable
    /// agent is available.
    fn select_agent(&self, task: &Task, agents: &[&AgentInfo]) -> Option<AgentId>;
}

/// The views of the candidate agents.
pub open spec fn candidates_view<'a>(agents: Seq<&'a AgentInfo>) -> Seq<AgentInfoView> {
    agents.map_values(|a: &'a AgentInfo| a@)
}

/// Whether a connected agent with identifier `id` is among `agents`.
pub open spec fn has_connected(agents: Seq<AgentInfoView>, id: AgentId) -> bool {
    exists|i: int| 0 <= i < agents.len() && #[trigger] agents[i].id == id && agents[i].status == AgentStatus::Connected
}

/// Whether `agents[i]` is the first connected agent.
pub open spec fn is_first_connected(agents: Seq<AgentInfoView>, i: int) -> bool {
    &&& 0 <= i < agents.len()
    &&& agents[i].status == AgentStatus::Connected
    &&& forall|j: int| 0 <= j < i ==> #[trigger] agents[j].status != AgentStatus::Connected
}

/// What the default strategy selects: the task's assignee when it is a
/// connected candidate, otherwise the first connected candidate.
pub open spec fn spec_default_selection(assignee: Option<AgentId>, agents: Seq<AgentInfoView>, r: Option<AgentId>) -> bool {
    if assignee is Some && has_connected(agents, assignee.unwrap()) {
        r == assignee
    } else {
        match r {
            Some(id) => exists|i: int| #[trigger] is_first_connected(agents, i) && agents[i].id == id,
            None => forall|i: int| 0 <= i < agents.len() ==> #[trigger] agents[i].status != AgentStatus::Connected,
        }
    }
}

/// Default routing strategy: an explicit assignment to a connected agent
/// is honoured; otherwise the first connected agent is chosen.
#[derive(Clone, Copy, Debug)]
pub struct DefaultTaskRouter;

impl Default for DefaultTaskRouter {
    fn default() -> (r: Self) {
        DefaultTaskRouter
    }
}

impl DefaultTaskRouter {
    /// Select the agent for `task` among `agents`.
    pub fn select(&self, task: &Task, agents: &[&AgentInfo]) -> (r: Option<AgentId>)
        ensures
            spec_default_selection(task.assignee, candidates_view(agents@), r),
    {
        let ghost v = candidates_view(agents@);
        match task.assignee {
            Some(a) => {
                let mut i: usize = 0;
                while i < agents.len()
                    invariant
                        i <= agents@.len(),
                        v == candidates_view(agents@),
                        task.assignee == Some(a),
                        forall|j: int| 0 <= j < i ==> !(#[trigger] v[j].id == a && v[j].status == AgentStatus::Connected),
                    decreases agents.len() - i,
                {
                    assert(v[i as int] == agents@[i as int]@);
                    if agents[i].id == a && agents[i].status == AgentStatus::Connected {
                        assert(v[i as int].id == a && v[i as int].status == AgentStatus::Connected);
                        assert(has_connected(v, a));
                        return Some(a);
                    }
                    i = i + 1;
                }
                assert(!has_connected(v, a));
            },
            None => {},
        }
        let mut i: usize = 0;
        while i < agents.len()
            invariant
                i <= agents@.len(),
                v == candidates_view(agents@),
                task.assignee is Some ==> !has_connected(v, task.assignee.unwrap()),
                forall|j: int| 0 <= j < i ==> #[trigger] v[j].status != AgentStatus::Connected,
            decreases agents.len() - i,
        {
            assert(v[i as int] == agents@[i as int]@);
            if agents[i].status == AgentStatus::Connected {
                assert(is_first_connected(v, i as int));
                assert(is_first_connected(v, i as int) && v[i as int].id == agents[i as int].id);
                return Some(agents[i].id);
            }
            i = i + 1;
        }
        None
    }
}

impl TaskRouter for DefaultTaskRouter {
    fn select_agent(&self, task: &Task, agents: &[&AgentInfo]) -> (r: Option<AgentId>)
        ensures
            spec_default_selection(task.assignee, candidates_view(agents@), r),
    {
        self.select(task, agents)
    }
}

// ── Tool invocation ──────────────────────────────────────────────────────────

/// How a tool invocation is carried out.
#[derive(Clone, Copy, Debug, PartialEq, Eq, Structural)]
pub enum InvocationPlan {
    /// Run the daemon's built-in code tools in-process.
    BuiltIn,
    /// Create a task for the connected agent that provides the tool.
    Agent { agent_id: AgentId },
}

/// How to carry out the invocation of tool `name`: `tool` is the
/// registered tool of that name (if any), `code_tools_ready` tells whether
/// the built-in tools were initialised, and `provider` is the providing
/// agent as the agent registry holds it (if registered).
///
/// # Errors
///
/// - [`Error::ToolNotFound`]: no tool has that name.
/// - [`Error::ToolInvocationFailed`]: a built-in tool is asked for before
///   the built-in tools were initialised.
/// - [`Error::ToolProviderUnavailable`]: the providing agent is not
///   registered or not connected.
pub fn plan_invocation(name: &str, tool: Option<&ToolInfo>, code_tools_ready: bool, provider: Option<&AgentInfo>) -> (r:
    Result<InvocationPlan, Error>)
    ensures
        match tool {
            None => r matches Err(Error::ToolNotFound { name: n }) && n@ == name@,
            Some(t) => match t.provider {
                ToolProvider::BuiltIn => if code_tools_ready {
                    r == Ok::<InvocationPlan, Error>(InvocationPlan::BuiltIn)
                } else {
                    r matches Err(Error::ToolInvocationFailed { name: n, reason })
                        && n@ == name@ && reason@ == "built-in tools not initialized"@
                },
                ToolProvider::Agent { agent_id } => if provider matches Some(a) && a.id == agent_id
                    && a.status == AgentStatus::Connected {
                    r == Ok::<InvocationPlan, Error>(InvocationPlan::Agent { agent_id })
                } else {
                    r matches Err(Error::ToolProviderUnavailable { name: n }) && n@ == name@
                },
            },
        },
{
    let t = match tool {
        None => return Err(Error::ToolNotFound { name: name.to_owned() }),
        Some(t) => t,
    };
    match t.provider {
        ToolProvider::BuiltIn => {
            if code_tools_ready {
                Ok(InvocationPlan::BuiltIn)
            } else {
                Err(Error::ToolInvocationFailed {
                    name: name.to_owned(),
                    reason: String::from_str("built-in tools not initialized"),
                })
            }
        },
        ToolProvider::Agent { agent_id } => {
            match provider {
                Some(a) => {
                    if a.id == agent_id && a.status == AgentStatus::Connected {
                        Ok(InvocationPlan::Agent { agent_id })
                    } else {
                        Err(Error::ToolProviderUnavailable { name: name.to_owned() })
                    }
                },
                None => Err(Error::ToolProviderUnavailable { name: name.to_owned() }),
            }
        },
    }
}

/// How `serde_json` escapes one character of a string: `"` and `\` by a
/// backslash; backspace, tab, line feed, form feed and carriage return as
/// `\b`, `\t`, `\n`, `\f`, `\r`; every other character below U+0020 as
/// `\u00` and two lower-case hexadecimal digits; all else as it is.
pub open spec fn json_escaped_char(c: char) -> Seq<char> {
    if c == '"' {
        seq!['\\', '"']
    } else if c == '\\' {
        seq!['\\', '\\']
    } else if c == '\u{8}' {
        seq!['\\', 'b']
    } else if c == '\t' {
        seq!['\\', 't']
    } else if c == '\n' {
        seq!['\\', 'n']
    } else if c == '\u{c}' {
        seq!['\\', 'f']
    } else if c == '\r' {
        seq!['\\', 'r']
    } else if (c as u32) < 0x20 {
        seq!['\\', 'u', '0', '0', hex_char((c as u32 / 16) as u128), hex_char((c as u32 % 16) as u128)]
    } else {
        seq![c]
    }
}

/// The escaped characters of a string, in order.
pub open spec fn json_escaped(s: Seq<char>) -> Seq<char>
    decreases s.len(),
{
    if s.len() == 0 {
        Seq::empty()
    } else {
        json_escaped(s.drop_last()) + json_escaped_char(s.last())
    }
}

/// The JSON text `serde_json` writes for a string: the string in double
/// quotes, each character escaped as [`json_escaped_char`] says.
pub open spec fn json_string_literal(s: Seq<char>) -> Seq<char> {
    seq!['"'] + json_escaped(s) + seq!['"']
}

/// `serde_json::to_string` on a string: its JSON string literal, with the
/// escapes of `format_escaped_str_contents` in the crate's `ser.rs`.
/// Writing a string to memory cannot fail there.
#[verifier::external_body]
fn json_quote(s: &str) -> (r: String)
    ensures
        r@ == json_string_literal(s@),
{
    match serde_json::to_string(s) {
        Ok(q) => q,
        Err(_) => String::new(),
    }
}

/// The message a task for an agent-provided tool carries: from the user,
/// one text part holding the invocation's JSON input, and metadata naming
/// the tool.
pub fn tool_task_message(name: &str, input_json: String) -> (r: TaskMessage)
    ensures
        r.role == MessageRole::User,
        r.parts@.len() == 1,
        r.parts@[0]@ == PartView::Text(input_json@),
        r.metadata matches Some(m) && m@ == "{\"tool_name\":"@ + json_string_literal(name@) + "}"@,
{
    let mut meta = String::from_str("{\"tool_name\":");
    let q = json_quote(name);
    meta.append(q.as_str());
    meta.append("}");
    let mut parts: Vec<Part> = Vec::new();
    parts.push(Part::Text { text: input_json });
    TaskMessage { id: MessageId::new(), role: MessageRole::User, parts, metadata: Some(meta) }
}

/// The outcome of a tool invocation.
#[derive(Debug)]
pub enum ToolResult {
    /// A built-in tool ran; its output as JSON text.
    Immediate { output: String },
    /// A task was created for the providing agent.
    TaskCreated { task: Box<Task> },
}

} // verus!
