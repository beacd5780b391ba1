//! A2A task types and the task lifecycle state machine.

use vstd::prelude::*;
use vstd::string::StringExecFns;

use crate::ids::{AgentId, ArtifactId, ContextId, MessageId, TaskId};
use crate::model::{clone_opt_string, opt_view, Timestamp};

verus! {

// ── State machine ────────────────────────────────────────────────────────────

/// Lifecycle state of a task.
#[derive(Clone, Copy, Debug, PartialEq, Eq, Structural, Hash)]
pub enum TaskState {
    /// Received, not yet started.
    Submitted,
    /// Being worked on.
    Working,
    /// Finished successfully.
    Completed,
    /// Finished with a failure.
    Failed,
    /// Canceled before finishing.
    Canceled,
    /// Paused until the requester provides more input.
    InputRequired,
    /// Declined by the agent.
    Rejected,
    /// Paused until the requester authenticates.
    AuthRequired,
}

/// The terminal states: no transition leaves them.
pub open spec fn spec_is_terminal(s: TaskState) -> bool {
    match s {
        TaskState::Completed | TaskState::Failed | TaskState::Canceled | TaskState::Rejected => true,
        _ => false,
    }
}

/// The allowed transitions of the task state machine.
///
/// * `Submitted` may start work, be canceled, rejected or fail.
/// * `Working` may complete, fail, be canceled, or pause for input or
///   authentication.
/// * A paused task (`InputRequired`, `AuthRequired`) may resume work, be
///   canceled or fail.
/// * Terminal states never move.
pub open spec fn spec_can_transition(from: TaskState, to: TaskState) -> bool {
    match from {
        TaskState::Submitted => match to {
            TaskState::Working | TaskState::Canceled | TaskState::Rejected | TaskState::Failed => true,
            _ => false,
        },
        TaskState::Working => match to {
            TaskState::Completed | TaskState::Failed | TaskState::Canceled
            | TaskState::InputRequired | TaskState::AuthRequired => true,
            _ => false,
        },
        TaskState::InputRequired | TaskState::AuthRequired => match to {
            TaskState::Working | TaskState::Canceled | TaskState::Failed => true,
            _ => false,
        },
        _ => false,
    }
}

/// The snake-case name of a state, as used on the wire and in filters.
pub open spec fn spec_state_name(s: TaskState) -> Seq<char> {
    match s {
        TaskState::Submitted => "submitted"@,
        TaskState::Working => "working"@,
        TaskState::Completed => "completed"@,
        TaskState::Failed => "failed"@,
        TaskState::Canceled => "canceled"@,
        TaskState::InputRequired => "input_required"@,
        TaskState::Rejected => "rejected"@,
        TaskState::AuthRequired => "auth_required"@,
    }
}

impl TaskState {
    /// Whether the state is terminal (`Completed`, `Failed`, `Canceled` or
    /// `Rejected`).
    pub fn is_terminal(&self) -> (r: bool)
        ensures
            r == spec_is_terminal(*self),
    {
        match self {
            TaskState::Completed | TaskState::Failed | TaskState::Canceled | TaskState::Rejected => true,
            _ => false,
        }
    }

    /// Whether the state machine allows moving from `self` to `next`.
    pub fn can_transition_to(&self, next: TaskState) -> (r: bool)
        ensures
            r == spec_can_transition(*self, next),
    {
        match self {
            TaskState::Submitted => match next {
                TaskState::Working | TaskState::Canceled | TaskState::Rejected | TaskState::Failed => true,
                _ => false,
            },
            TaskState::Working => match next {
                TaskState::Completed | TaskState::Failed | TaskState::Canceled
                | TaskState::InputRequired | TaskState::AuthRequired => true,
                _ => false,
            },
            TaskState::InputRequired | TaskState::AuthRequired => match next {
                TaskState::Working | TaskState::Canceled | TaskState::Failed => true,
                _ => false,
            },
            _ => false,
        }
    }

    /// The snake-case name of the state.
    pub fn as_str(&self) -> (r: &'static str)
        ensures
            r@ == spec_state_name(*self),
    {
        match self {
            TaskState::Submitted => "submitted",
            TaskState::Working => "working",
            TaskState::Completed => "completed",
            TaskState::Failed => "failed",
            TaskState::Canceled => "canceled",
            TaskState::InputRequired => "input_required",
            TaskState::Rejected => "rejected",
            TaskState::AuthRequired => "auth_required",
        }
    }

    /// Parse a snake-case state name; `None` for any other text.
    pub fn parse(s: &str) -> (r: Option<TaskState>)
        ensures
            match r {
                Some(st) => spec_state_name(st) == s@,
                None => forall|st: TaskState| spec_state_name(st) != s@,
            },
    {
        let all = [
            TaskState::Submitted, TaskState::Working, TaskState::Completed, TaskState::Failed,
            TaskState::Canceled, TaskState::InputRequired, TaskState::Rejected,
            TaskState::AuthRequired,
        ];
        let mut i: usize = 0;
        while i < 8
            invariant
                i <= 8,
                all@ == seq![
                    TaskState::Submitted, TaskState::Working, TaskState::Completed, TaskState::Failed,
                    TaskState::Canceled, TaskState::InputRequired, TaskState::Rejected,
                    TaskState::AuthRequired,
                ],
                forall|j: int| 0 <= j < i ==> spec_state_name(#[trigger] all@[j]) != s@,
            decreases 8 - i,
        {
            let st = all[i];
            let name = String::from_str(st.as_str());
            if name.eq(&String::from_str(s)) {
                return Some(st);
            }
            i = i + 1;
        }
        assert forall|st: TaskState| spec_state_name(st) != s@ by {
            match st {
                TaskState::Submitted => assert(all@[0] == st),
                TaskState::Working => assert(all@[1] == st),
                TaskState::Completed => assert(all@[2] == st),
                TaskState::Failed => assert(all@[3] == st),
                TaskState::Canceled => assert(all@[4] == st),
                TaskState::InputRequired => assert(all@[5] == st),
                TaskState::Rejected => assert(all@[6] == st),
                TaskState::AuthRequired => assert(all@[7] == st),
            }
        }
        None
    }
}

/// Terminal states are absorbing: no transition leaves them.
pub proof fn lemma_terminal_states_are_final(from: TaskState, to: TaskState)
    requires
        spec_is_terminal(from),
    ensures
        !spec_can_transition(from, to),
{
}

/// No state may transition to itself.
pub proof fn lemma_no_self_transition(s: TaskState)
    ensures
        !spec_can_transition(s, s),
{
}

/// `Submitted` is never re-entered: no transition leads into it.
pub proof fn lemma_submitted_not_reentered(from: TaskState)
    ensures
        !spec_can_transition(from, TaskState::Submitted),
{
}

/// Cancellation is possible exactly from the non-terminal states.
pub proof fn lemma_cancel_iff_active(s: TaskState)
    ensures
        spec_can_transition(s, TaskState::Canceled) <==> !spec_is_terminal(s),
{
}

// ── Messages and parts ───────────────────────────────────────────────────────

/// Who authored a task message.
#[derive(Clone, Copy, Debug, PartialEq, Eq, Structural)]
pub enum MessageRole {
    User,
    Agent,
}

/// One piece of content in a message or artifact.
#[derive(Debug)]
pub enum Part {
    /// Plain text.
    Text { text: String },
    /// A URL reference.
    Url { url: String },
    /// Structured data, held as JSON text.
    Data { data: String },
}

/// The view of a [`Part`].
pub enum PartView {
    Text(Seq<char>),
    Url(Seq<char>),
    Data(Seq<char>),
}

impl View for Part {
    type V = PartView;

    open spec fn view(&self) -> PartView {
        match self {
            Part::Text { text } => PartView::Text(text@),
            Part::Url { url } => PartView::Url(url@),
            Part::Data { data } => PartView::Data(data@),
        }
    }
}

impl Clone for Part {
    fn clone(&self) -> (r: Self)
        ensures
            r@ == self@,
    {
        match self {
            Part::Text { text } => Part::Text { text: text.clone() },
            Part::Url { url } => Part::Url { url: url.clone() },
            Part::Data { data } => Part::Data { data: data.clone() },
        }
    }
}

/// The views of a sequence of parts.
pub open spec fn parts_view(p: Seq<Part>) -> Seq<PartView> {
    p.map_values(|x: Part| x@)
}

/// A copy of a vector of parts.
pub fn clone_parts(v: &Vec<Part>) -> (r: Vec<Part>)
    ensures
        parts_view(r@) == parts_view(v@),
{
    let mut r: Vec<Part> = Vec::new();
    let mut i: usize = 0;
    while i < v.len()
        invariant
            i <= v.len(),
            r@.len() == i,
            forall|j: int| 0 <= j < i ==> #[trigger] r@[j]@ == v@[j]@,
        decreases v.len() - i,
    {
        r.push(v[i].clone());
        i = i + 1;
    }
    assert(parts_view(r@) =~= parts_view(v@));
    r
}

/// A message exchanged as part of a task.
#[derive(Debug)]
pub struct TaskMessage {
    pub id: MessageId,
    pub role: MessageRole,
    pub parts: Vec<Part>,
    /// Optional metadata as JSON text.
    pub metadata: Option<String>,
}

/// The view of a [`TaskMessage`].
pub struct TaskMessageView {
    pub id: MessageId,
    pub role: MessageRole,
    pub parts: Seq<PartView>,
    pub metadata: Option<Seq<char>>,
}

impl View for TaskMessage {
    type V = TaskMessageView;

    open spec fn view(&self) -> TaskMessageView {
        TaskMessageView {
            id: self.id,
            role: self.role,
            parts: parts_view(self.parts@),
            metadata: opt_view(self.metadata),
        }
    }
}

impl Clone for TaskMessage {
    fn clone(&self) -> (r: Self)
        ensures
            r@ == self@,
    {
        TaskMessage {
            id: self.id,
            role: self.role,
            parts: clone_parts(&self.parts),
            metadata: clone_opt_string(&self.metadata),
        }
    }
}

/// The view of an optional message.
pub open spec fn opt_msg_view(m: Option<TaskMessage>) -> Option<TaskMessageView> {
    match m {
        Some(m) => Some(m@),
        None => None,
    }
}

/// A copy of an optional message.
pub fn clone_opt_msg(m: &Option<TaskMessage>) -> (r: Option<TaskMessage>)
    ensures
        opt_msg_view(r) == opt_msg_view(*m),
{
    match m {
        Some(m) => Some(m.clone()),
        None => None,
    }
}

/// The views of a sequence of messages.
pub open spec fn msgs_view(m: Seq<TaskMessage>) -> Seq<TaskMessageView> {
    m.map_values(|x: TaskMessage| x@)
}

/// A copy of a vector of messages.
pub fn clone_msgs(v: &Vec<TaskMessage>) -> (r: Vec<TaskMessage>)
    ensures
        msgs_view(r@) == msgs_view(v@),
{
    let mut r: Vec<TaskMessage> = Vec::new();
    let mut i: usize = 0;
    while i < v.len()
        invariant
            i <= v.len(),
            r@.len() == i,
            forall|j: int| 0 <= j < i ==> #[trigger] r@[j]@ == v@[j]@,
        decreases v.len() - i,
    {
        r.push(v[i].clone());
        i = i + 1;
    }
    assert(msgs_view(r@) =~= msgs_view(v@));
    r
}

/// The status of a task: its state, an optional status message, and when
/// the state was entered.
#[derive(Debug)]
pub struct TaskStatus {
    pub state: TaskState,
    pub message: Option<TaskMessage>,
    pub timestamp: Timestamp,
}

/// The view of a [`TaskStatus`].
pub struct TaskStatusView {
    pub state: TaskState,
    pub message: Option<TaskMessageView>,
    pub timestamp: Timestamp,
}

impl View for TaskStatus {
    type V = TaskStatusView;

    open spec fn view(&self) -> TaskStatusView {
        TaskStatusView { state: self.state, message: opt_msg_view(self.message), timestamp: self.timestamp }
    }
}

impl Clone for TaskStatus {
    fn clone(&self) -> (r: Self)
        ensures
            r@ == self@,
    {
        TaskStatus { state: self.state, message: clone_opt_msg(&self.message), timestamp: self.timestamp }
    }
}

/// An output produced by a task.
#[derive(Debug)]
pub struct Artifact {
    pub id: ArtifactId,
    pub name: Option<String>,
    pub description: Option<String>,
    pub parts: Vec<Part>,
    /// Optional metadata as JSON text.
    pub metadata: Option<String>,
}

/// The view of an [`Artifact`].
pub struct ArtifactView {
    pub id: ArtifactId,
    pub name: Option<Seq<char>>,
    pub description: Option<Seq<char>>,
    pub parts: Seq<PartView>,
    pub metadata: Option<Seq<char>>,
}

impl View for Artifact {
    type V = ArtifactView;

    open spec fn view(&self) -> ArtifactView {
        ArtifactView {
            id: self.id,
            name: opt_view(self.name),
            description: opt_view(self.description),
            parts: parts_view(self.parts@),
            metadata: opt_view(self.metadata),
        }
    }
}

impl Clone for Artifact {
    fn clone(&self) -> (r: Self)
        ensures
            r@ == self@,
    {
        Artifact {
            id: self.id,
            name: clone_opt_string(&self.name),
            description: clone_opt_string(&self.description),
            parts: clone_parts(&self.parts),
            metadata: clone_opt_string(&self.metadata),
        }
    }
}

/// The views of a sequence of artifacts.
pub open spec fn artifacts_view(a: Seq<Artifact>) -> Seq<ArtifactView> {
    a.map_values(|x: Artifact| x@)
}

/// A copy of a vector of artifacts.
pub fn clone_artifacts(v: &Vec<Artifact>) -> (r: Vec<Artifact>)
    ensures
        artifacts_view(r@) == artifacts_view(v@),
{
    let mut r: Vec<Artifact> = Vec::new();
    let mut i: usize = 0;
    while i < v.len()
        invariant
            i <= v.len(),
            r@.len() == i,
            forall|j: int| 0 <= j < i ==> #[trigger] r@[j]@ == v@[j]@,
        decreases v.len() - i,
    {
        r.push(v[i].clone());
        i = i + 1;
    }
    assert(artifacts_view(r@) =~= artifacts_view(v@));
    r
}

/// A unit of work exchanged between agents.
#[derive(Debug)]
pub struct Task {
    pub id: TaskId,
    pub context_id: ContextId,
    pub status: TaskStatus,
    /// Every message of the task, oldest first.
    pub history: Vec<TaskMessage>,
    pub artifacts: Vec<Artifact>,
    pub assignee: Option<AgentId>,
    pub creator: Option<AgentId>,
    /// Optional metadata as JSON text.
    pub metadata: Option<String>,
}

/// The view of a [`Task`].
pub struct TaskView {
    pub id: TaskId,
    pub context_id: ContextId,
    pub status: TaskStatusView,
    pub history: Seq<TaskMessageView>,
    pub artifacts: Seq<ArtifactView>,
    pub assignee: Option<AgentId>,
    pub creator: Option<AgentId>,
    pub metadata: Option<Seq<char>>,
}

impl View for Task {
    type V = TaskView;

    open spec fn view(&self) -> TaskView {
        TaskView {
            id: self.id,
            context_id: self.context_id,
            status: self.status@,
            history: msgs_view(self.history@),
            artifacts: artifacts_view(self.artifacts@),
            assignee: self.assignee,
            creator: self.creator,
            metadata: opt_view(self.metadata),
        }
    }
}

impl Clone for Task {
    fn clone(&self) -> (r: Self)
        ensures
            r@ == self@,
    {
        Task {
            id: self.id,
            context_id: self.context_id,
            status: self.status.clone(),
            history: clone_msgs(&self.history),
            artifacts: clone_artifacts(&self.artifacts),
            assignee: self.assignee,
            creator: self.creator,
            metadata: clone_opt_string(&self.metadata),
        }
    }
}

/// Filter for task listings: every field that is set must match.
#[derive(Clone, Copy, Debug)]
pub struct TaskFilter {
    pub context_id: Option<ContextId>,
    pub state: Option<TaskState>,
    pub assignee: Option<AgentId>,
}

/// Whether a task (by its view) passes a filter.
pub open spec fn spec_filter_matches(f: TaskFilter, t: TaskView) -> bool {
    &&& (f.context_id matches Some(c) ==> t.context_id == c)
    &&& (f.state matches Some(s) ==> t.status.state == s)
    &&& (f.assignee matches Some(a) ==> t.assignee == Some(a))
}

impl TaskFilter {
    /// Whether `task` passes this filter.
    pub fn matches(&self, task: &Task) -> (r: bool)
        ensures
            r == spec_filter_matches(*self, task@),
    {
        let c_ok = match self.context_id {
            Some(c) => task.context_id == c,
            None => true,
        };
        let s_ok = match self.state {
            Some(s) => task.status.state == s,
            None => true,
        };
        let a_ok = match self.assignee {
            Some(a) => match task.assignee {
                Some(b) => a == b,
                None => false,
            },
            None => true,
        };
        c_ok && s_ok && a_ok
    }
}

} // verus!
