//! Task manager: owns all task state and publishes task events.
//!
//! Tasks are kept as a keyed sequence (by task identifier) in creation
//! order. Every change goes through the task state machine of
//! [`crate::task_types`].

use std::sync::Arc;

use vstd::prelude::*;
use vstd::string::StringExecFns;

use crate::error::Error;
use crate::events::{broadcast_channel, broadcast_send, broadcast_subscribe, Event, EventView, MessageBus};
use crate::ids::{uuid_text, AgentId, ArtifactId, ContextId, TaskId};
use crate::model::{now, Timestamp};
use crate::task_types::{
    opt_msg_view, spec_can_transition, spec_is_terminal, spec_filter_matches, Artifact,
    ArtifactView, Task, TaskFilter, TaskMessage, TaskMessageView, TaskState, TaskStatus,
    TaskStatusView, TaskView,
};
use crate::model::opt_view;
use crate::store::{has_key, key_index, keys_unique, lemma_key_index, lemma_upsert, lookup, upsert};

verus! {

// ── Task-scoped events ───────────────────────────────────────────────────────

/// Events scoped to task lifecycle changes, broadcast on a channel of their
/// own so that consumers can subscribe to task events alone.
#[derive(Debug)]
pub enum TaskEvent {
    /// A new task was created.
    TaskCreated(Box<Task>),
    /// A task's state changed.
    TaskStatusChanged { task_id: TaskId, old_state: TaskState, new_state: TaskState },
    /// An artifact was appended to a task.
    TaskArtifactAdded { task_id: TaskId, artifact_id: ArtifactId },
}

impl View for TaskEvent {
    type V = EventView;

    /// A task event is viewed as the bus event it mirrors.
    open spec fn view(&self) -> EventView {
        match self {
            TaskEvent::TaskCreated(t) => EventView::TaskCreated(t@),
            TaskEvent::TaskStatusChanged { task_id, old_state, new_state } => EventView::TaskStatusChanged {
                task_id: *task_id,
                old_state: *old_state,
                new_state: *new_state,
            },
            TaskEvent::TaskArtifactAdded { task_id, artifact_id } => EventView::TaskArtifactAdded {
                task_id: *task_id,
                artifact_id: *artifact_id,
            },
        }
    }
}

impl Clone for TaskEvent {
    fn clone(&self) -> Self {
        match self {
            TaskEvent::TaskCreated(t) => TaskEvent::TaskCreated(Box::new((**t).clone())),
            TaskEvent::TaskStatusChanged { task_id, old_state, new_state } => TaskEvent::TaskStatusChanged {
                task_id: *task_id,
                old_state: *old_state,
                new_state: *new_state,
            },
            TaskEvent::TaskArtifactAdded { task_id, artifact_id } => TaskEvent::TaskArtifactAdded {
                task_id: *task_id,
                artifact_id: *artifact_id,
            },
        }
    }
}

// ── Model ────────────────────────────────────────────────────────────────────

/// The identifier of a task: the manager's key.
pub open spec fn task_id_of() -> spec_fn(TaskView) -> TaskId {
    |t: TaskView| t.id
}

/// The tasks a manager holds, in creation order.
pub open spec fn tasks_view(v: Seq<Task>) -> Seq<TaskView> {
    v.map_values(|t: Task| t@)
}

/// The tasks behind a sequence of references.
pub open spec fn task_refs_view<'a>(v: Seq<&'a Task>) -> Seq<TaskView> {
    v.map_values(|t: &'a Task| t@)
}

/// The name of a state as its `Debug` form renders it.
pub open spec fn spec_state_debug(s: TaskState) -> Seq<char> {
    match s {
        TaskState::Submitted => "Submitted"@,
        TaskState::Working => "Working"@,
        TaskState::Completed => "Completed"@,
        TaskState::Failed => "Failed"@,
        TaskState::Canceled => "Canceled"@,
        TaskState::InputRequired => "InputRequired"@,
        TaskState::Rejected => "Rejected"@,
        TaskState::AuthRequired => "AuthRequired"@,
    }
}

/// The `Debug` name of a state.
pub fn state_debug_name(s: TaskState) -> (r: &'static str)
    ensures
        r@ == spec_state_debug(s),
{
    match s {
        TaskState::Submitted => "Submitted",
        TaskState::Working => "Working",
        TaskState::Completed => "Completed",
        TaskState::Failed => "Failed",
        TaskState::Canceled => "Canceled",
        TaskState::InputRequired => "InputRequired",
        TaskState::Rejected => "Rejected",
        TaskState::AuthRequired => "AuthRequired",
    }
}

/// The reason given when no task has identifier `id`.
pub open spec fn task_not_found_reason(id: TaskId) -> Seq<char> {
    "task '"@ + uuid_text(id.0) + "' not found"@
}

/// The reason given when a task may not move from `from` to `to`.
pub open spec fn invalid_transition_reason(id: TaskId, from: TaskState, to: TaskState) -> Seq<char> {
    "invalid task transition: "@ + spec_state_debug(from) + " \u{2192} "@ + spec_state_debug(to)
        + " for task '"@ + uuid_text(id.0) + "'"@
}

/// A task after a status change to `state` with optional status message
/// `msg` at time `ts`: the message, when there is one, is appended to the
/// history; nothing else changes.
pub open spec fn spec_with_status(
    t: TaskView,
    state: TaskState,
    msg: Option<TaskMessageView>,
    ts: Timestamp,
) -> TaskView {
    TaskView {
        status: TaskStatusView { state, message: msg, timestamp: ts },
        history: match msg {
            Some(m) => t.history.push(m),
            None => t.history,
        },
        ..t
    }
}

/// A task after `a` is appended to its artifacts.
pub open spec fn spec_with_artifact(t: TaskView, a: ArtifactView) -> TaskView {
    TaskView { artifacts: t.artifacts.push(a), ..t }
}

/// What restoring `items` leaves: each task in turn, a later one replacing
/// an earlier one with the same identifier.
pub open spec fn spec_restore_tasks(items: Seq<TaskView>) -> Seq<TaskView> {
    items.fold_left(Seq::<TaskView>::empty(), |acc: Seq<TaskView>, t: TaskView| upsert(acc, task_id_of(), t))
}

/// Whether a task is an active task of agent `a`: assigned to it and not
/// in a terminal state.
pub open spec fn is_active_for(t: TaskView, a: AgentId) -> bool {
    t.assignee == Some(a) && !spec_is_terminal(t.status.state)
}

// ── TaskManager ──────────────────────────────────────────────────────────────

/// Manages tasks across the agent nexus.
pub struct TaskManager {
    tasks: Vec<Task>,
    bus: Arc<MessageBus>,
    event_tx: tokio::sync::broadcast::Sender<TaskEvent>,
    /// The events announced so far, oldest first.
    announced: Ghost<Seq<EventView>>,
}

impl View for TaskManager {
    type V = Seq<TaskView>;

    closed spec fn view(&self) -> Seq<TaskView> {
        tasks_view(self.tasks@)
    }
}

impl TaskManager {
    /// Task identifiers are pairwise distinct.
    pub open spec fn wf(&self) -> bool {
        keys_unique(self@, task_id_of())
    }

    /// The bus this manager announces its changes on.
    pub closed spec fn bus(&self) -> Arc<MessageBus> {
        self.bus
    }

    /// The events this manager has announced, oldest first: each went out
    /// on the manager's task channel and on the bus alike.
    pub closed spec fn announced(&self) -> Seq<EventView> {
        self.announced@
    }

    /// Create an empty manager backed by `bus`; task events are also
    /// broadcast on a channel of their own that buffers 64 events.
    pub fn new(bus: Arc<MessageBus>) -> (r: Self)
        ensures
            r.wf(),
            r@ == Seq::<TaskView>::empty(),
            r.bus() == bus,
            r.announced() == Seq::<EventView>::empty(),
    {
        let r = TaskManager { tasks: Vec::new(), bus, event_tx: broadcast_channel(64), announced: Ghost(Seq::empty()) };
        assert(r@ =~= Seq::<TaskView>::empty());
        r
    }

    /// Subscribe to task-lifecycle events published after this call.
    pub fn subscribe(&self) -> tokio::sync::broadcast::Receiver<TaskEvent> {
        broadcast_subscribe(&self.event_tx)
    }

    /// Announce an event on the task channel and its mirror on the bus.
    fn announce(&mut self, event: TaskEvent, global: Event)
        requires
            event@ == global@,
        ensures
            final(self)@ == old(self)@,
            final(self).bus() == old(self).bus(),
            final(self).announced() == old(self).announced().push(global@),
    {
        self.announced = Ghost(self.announced@.push(global@));
        broadcast_send(&self.event_tx, event);
        self.bus.publish(global);
    }

    /// The position of the task with identifier `id`, if any.
    fn index_of(&self, id: TaskId) -> (r: Option<usize>)
        requires
            self.wf(),
        ensures
            match r {
                Some(i) => i < self@.len() && self@[i as int].id == id
                    && key_index(self@, task_id_of(), id) == i as int
                    && lookup(self@, task_id_of(), id) == Some(self@[i as int]),
                None => !has_key(self@, task_id_of(), id) && lookup(self@, task_id_of(), id) is None,
            },
    {
        let mut i: usize = 0;
        while i < self.tasks.len()
            invariant
                i <= self.tasks@.len(),
                self@.len() == self.tasks@.len(),
                self.wf(),
                forall|j: int| 0 <= j < i ==> #[trigger] self@[j].id != id,
            decreases self.tasks.len() - i,
        {
            if self.tasks[i].id == id {
                proof {
                    assert(self@[i as int] == self.tasks@[i as int]@);
                    lemma_key_index(self@, task_id_of(), i as int);
                }
                return Some(i);
            }
            assert(self@[i as int] == self.tasks@[i as int]@);
            i = i + 1;
        }
        proof {
            if has_key(self@, task_id_of(), id) {
                let j = key_index(self@, task_id_of(), id);
                assert(task_id_of()(self@[j]) == id);
            }
        }
        None
    }

    /// Insert or replace `task` by its identifier.
    fn put(&mut self, task: Task)
        requires
            old(self).wf(),
        ensures
            final(self).wf(),
            final(self)@ == upsert(old(self)@, task_id_of(), task@),
            final(self).bus() == old(self).bus(),
            final(self).announced() == old(self).announced(),
    {
        let ghost before = self@;
        proof {
            lemma_upsert(before, task_id_of(), task@);
        }
        match self.index_of(task.id) {
            Some(i) => {
                self.tasks.set(i, task);
                assert(self@ =~= before.update(i as int, task@));
            },
            None => {
                self.tasks.push(task);
                assert(self@ =~= before.push(task@));
            },
        }
    }

    /// The error for a missing task.
    fn not_found(id: &TaskId) -> (e: Error)
        ensures
            e matches Error::InternalUnexpected { reason } && reason@ == task_not_found_reason(*id),
    {
        let mut s = String::from_str("task '");
        let t = id.to_string();
        s.append(t.as_str());
        s.append("' not found");
        Error::InternalUnexpected { reason: s }
    }

    /// Create a new task from an initial message, in state `Submitted`,
    /// with a fresh identifier; when `context_id` is `None` a fresh context
    /// is drawn. A task-created event is published.
    pub fn create_task(
        &mut self,
        message: TaskMessage,
        context_id: Option<ContextId>,
        assignee: Option<AgentId>,
        creator: Option<AgentId>,
        metadata: Option<String>,
    ) -> (r: Result<Task, Error>)
        requires
            old(self).wf(),
        ensures
            final(self).wf(),
            final(self).bus() == old(self).bus(),
            r matches Ok(t) && {
                &&& final(self).announced() == old(self).announced().push(EventView::TaskCreated(t@))
                &&& t@.status.state == TaskState::Submitted
                &&& t@.status.message == Some(message@)
                &&& t@.history == seq![message@]
                &&& t@.artifacts == Seq::<ArtifactView>::empty()
                &&& (context_id matches Some(c) ==> t@.context_id == c)
                &&& t@.assignee == assignee
                &&& t@.creator == creator
                &&& t@.metadata == opt_view(metadata)
                &&& final(self)@ == upsert(old(self)@, task_id_of(), t@)
            },
    {
        let id = TaskId::new();
        let context_id = match context_id {
            Some(c) => c,
            None => ContextId::new(),
        };
        let history = vec![message.clone()];
        let task = Task {
            id,
            context_id,
            status: TaskStatus { state: TaskState::Submitted, message: Some(message), timestamp: now() },
            history,
            artifacts: Vec::new(),
            assignee,
            creator,
            metadata,
        };
        assert(task@.history =~= seq![task@.status.message.unwrap()]);
        assert(task@.artifacts =~= Seq::<ArtifactView>::empty());
        self.put(task.clone());
        self.announce(TaskEvent::TaskCreated(Box::new(task.clone())), Event::TaskCreated(Box::new(task.clone())));
        Ok(task)
    }

    /// Look up a task by its identifier.
    pub fn get(&self, id: &TaskId) -> (r: Option<&Task>)
        requires
            self.wf(),
        ensures
            match r {
                Some(t) => lookup(self@, task_id_of(), *id) == Some(t@),
                None => lookup(self@, task_id_of(), *id) is None,
            },
    {
        match self.index_of(*id) {
            Some(i) => {
                assert(self@[i as int] == self.tasks@[i as int]@);
                Some(&self.tasks[i])
            },
            None => None,
        }
    }

    /// All tasks, in creation order.
    pub fn list(&self) -> (r: Vec<&Task>)
        ensures
            task_refs_view(r@) == self@,
    {
        let mut r: Vec<&Task> = Vec::new();
        let mut i: usize = 0;
        while i < self.tasks.len()
            invariant
                i <= self.tasks@.len(),
                self@.len() == self.tasks@.len(),
                task_refs_view(r@) == self@.subrange(0, i as int),
            decreases self.tasks.len() - i,
        {
            assert(self@[i as int] == self.tasks@[i as int]@);
            assert(self@.subrange(0, i + 1) =~= self@.subrange(0, i as int).push(self@[i as int]));
            r.push(&self.tasks[i]);
            assert(task_refs_view(r@) =~= self@.subrange(0, i as int).push(self@[i as int]));
            i = i + 1;
        }
        assert(self@.subrange(0, i as int) =~= self@);
        r
    }

    /// The tasks that pass `filter`, in creation order: every field of the
    /// filter that is set must match.
    pub fn list_filtered(&self, filter: &TaskFilter) -> (r: Vec<&Task>)
        ensures
            task_refs_view(r@) == self@.filter(|t: TaskView| spec_filter_matches(*filter, t)),
    {
        let ghost pred = |t: TaskView| spec_filter_matches(*filter, t);
        let mut r: Vec<&Task> = Vec::new();
        let mut i: usize = 0;
        while i < self.tasks.len()
            invariant
                i <= self.tasks@.len(),
                self@.len() == self.tasks@.len(),
                pred == (|t: TaskView| spec_filter_matches(*filter, t)),
                task_refs_view(r@) == self@.subrange(0, i as int).filter(pred),
            decreases self.tasks.len() - i,
        {
            let ghost prefix = self@.subrange(0, i as int);
            let ghost next = self@.subrange(0, i + 1);
            proof {
                reveal(Seq::filter);
                assert(next.drop_last() =~= prefix);
                assert(next.last() == self.tasks@[i as int]@);
            }
            if filter.matches(&self.tasks[i]) {
                r.push(&self.tasks[i]);
                assert(task_refs_view(r@) =~= prefix.filter(pred).push(self.tasks@[i as int]@));
            }
            i = i + 1;
        }
        assert(self@.subrange(0, i as int) =~= self@);
        r
    }

    /// Move a task to `new_state`, recording the optional status message in
    /// the status and appending it to the history, and publish the change.
    ///
    /// # Errors
    ///
    /// - [`Error::InternalUnexpected`]: no task has `task_id`, or the state
    ///   machine does not allow the move from the task's current state.
    pub fn update_status(&mut self, task_id: &TaskId, new_state: TaskState, message: Option<TaskMessage>) -> (r: Result<
        Task,
        Error,
    >)
        requires
            old(self).wf(),
        ensures
            final(self).wf(),
            final(self).bus() == old(self).bus(),
            r is Err ==> final(self).announced() == old(self).announced(),
            match lookup(old(self)@, task_id_of(), *task_id) {
                None => r matches Err(Error::InternalUnexpected { reason })
                    && reason@ == task_not_found_reason(*task_id) && final(self)@ == old(self)@,
                Some(t) => if !spec_can_transition(t.status.state, new_state) {
                    r matches Err(Error::InternalUnexpected { reason })
                        && reason@ == invalid_transition_reason(*task_id, t.status.state, new_state)
                        && final(self)@ == old(self)@
                } else {
                    r matches Ok(nt)
                        && nt@ == spec_with_status(t, new_state, opt_msg_view(message), nt@.status.timestamp)
                        && final(self)@ == upsert(old(self)@, task_id_of(), nt@)
                        && final(self).announced() == old(self).announced().push(
                            EventView::TaskStatusChanged { task_id: *task_id, old_state: t.status.state, new_state },
                        )
                },
            },
    {
        let i = match self.index_of(*task_id) {
            None => return Err(Self::not_found(task_id)),
            Some(i) => i,
        };
        assert(self@[i as int] == self.tasks@[i as int]@);
        let old_state = self.tasks[i].status.state;
        if !old_state.can_transition_to(new_state) {
            let mut s = String::from_str("invalid task transition: ");
            s.append(state_debug_name(old_state));
            s.append(" \u{2192} ");
            s.append(state_debug_name(new_state));
            s.append(" for task '");
            let t = task_id.to_string();
            s.append(t.as_str());
            s.append("'");
            return Err(Error::InternalUnexpected { reason: s });
        }
        let mut task = self.tasks[i].clone();
        let ghost before = task@;
        let status_message = match &message {
            Some(m) => Some(m.clone()),
            None => None,
        };
        task.status = TaskStatus { state: new_state, message: status_message, timestamp: now() };
        match message {
            Some(m) => {
                task.history.push(m);
            },
            None => {},
        }
        assert(task@.history =~= spec_with_status(before, new_state, opt_msg_view(message), task@.status.timestamp).history);
        self.put(task.clone());
        self.announce(
            TaskEvent::TaskStatusChanged { task_id: *task_id, old_state, new_state },
            Event::TaskStatusChanged { task_id: *task_id, old_state, new_state },
        );
        Ok(task)
    }

    /// Append an artifact to a task and publish the addition.
    ///
    /// # Errors
    ///
    /// - [`Error::InternalUnexpected`]: no task has `task_id`.
    pub fn add_artifact(&mut self, task_id: &TaskId, artifact: Artifact) -> (r: Result<Task, Error>)
        requires
            old(self).wf(),
        ensures
            final(self).wf(),
            final(self).bus() == old(self).bus(),
            match lookup(old(self)@, task_id_of(), *task_id) {
                None => r matches Err(Error::InternalUnexpected { reason })
                    && reason@ == task_not_found_reason(*task_id) && final(self)@ == old(self)@
                    && final(self).announced() == old(self).announced(),
                Some(t) => r matches Ok(nt) && nt@ == spec_with_artifact(t, artifact@)
                    && final(self)@ == upsert(old(self)@, task_id_of(), nt@)
                    && final(self).announced() == old(self).announced().push(
                        EventView::TaskArtifactAdded { task_id: *task_id, artifact_id: artifact.id },
                    ),
            },
    {
        let i = match self.index_of(*task_id) {
            None => return Err(Self::not_found(task_id)),
            Some(i) => i,
        };
        assert(self@[i as int] == self.tasks@[i as int]@);
        let artifact_id = artifact.id;
        let mut task = self.tasks[i].clone();
        let ghost before = task@;
        task.artifacts.push(artifact);
        assert(task@.artifacts =~= before.artifacts.push(artifact@));
        self.put(task.clone());
        self.announce(
            TaskEvent::TaskArtifactAdded { task_id: *task_id, artifact_id },
            Event::TaskArtifactAdded { task_id: *task_id, artifact_id },
        );
        Ok(task)
    }

    /// Cancel a task: move it to `Canceled` with no status message.
    ///
    /// # Errors
    ///
    /// As [`Self::update_status`].
    pub fn cancel(&mut self, task_id: &TaskId) -> (r: Result<Task, Error>)
        requires
            old(self).wf(),
        ensures
            final(self).wf(),
            final(self).bus() == old(self).bus(),
            r is Err ==> final(self).announced() == old(self).announced(),
            match lookup(old(self)@, task_id_of(), *task_id) {
                None => r matches Err(Error::InternalUnexpected { reason })
                    && reason@ == task_not_found_reason(*task_id) && final(self)@ == old(self)@,
                Some(t) => if spec_is_terminal(t.status.state) {
                    r matches Err(Error::InternalUnexpected { reason })
                        && reason@ == invalid_transition_reason(*task_id, t.status.state, TaskState::Canceled)
                        && final(self)@ == old(self)@
                } else {
                    r matches Ok(nt)
                        && nt@ == spec_with_status(t, TaskState::Canceled, None, nt@.status.timestamp)
                        && final(self)@ == upsert(old(self)@, task_id_of(), nt@)
                        && final(self).announced() == old(self).announced().push(
                            EventView::TaskStatusChanged {
                                task_id: *task_id,
                                old_state: t.status.state,
                                new_state: TaskState::Canceled,
                            },
                        )
                },
            },
    {
        self.update_status(task_id, TaskState::Canceled, None)
    }

    /// The active (non-terminal) tasks assigned to `agent_id`, in creation
    /// order.
    pub fn tasks_for_agent(&self, agent_id: &AgentId) -> (r: Vec<&Task>)
        ensures
            task_refs_view(r@) == self@.filter(|t: TaskView| is_active_for(t, *agent_id)),
    {
        let ghost pred = |t: TaskView| is_active_for(t, *agent_id);
        let mut r: Vec<&Task> = Vec::new();
        let mut i: usize = 0;
        while i < self.tasks.len()
            invariant
                i <= self.tasks@.len(),
                self@.len() == self.tasks@.len(),
                pred == (|t: TaskView| is_active_for(t, *agent_id)),
                task_refs_view(r@) == self@.subrange(0, i as int).filter(pred),
            decreases self.tasks.len() - i,
        {
            let ghost prefix = self@.subrange(0, i as int);
            let ghost next = self@.subrange(0, i + 1);
            proof {
                reveal(Seq::filter);
                assert(next.drop_last() =~= prefix);
                assert(next.last() == self.tasks@[i as int]@);
            }
            let t = &self.tasks[i];
            let assigned = match t.assignee {
                Some(a) => a == *agent_id,
                None => false,
            };
            if assigned && !t.status.state.is_terminal() {
                r.push(t);
                assert(task_refs_view(r@) =~= prefix.filter(pred).push(self.tasks@[i as int]@));
            }
            i = i + 1;
        }
        assert(self@.subrange(0, i as int) =~= self@);
        r
    }

    /// Clear all task state and repopulate from `tasks`, in order; a later
    /// task replaces an earlier one with the same identifier. No events are
    /// published.
    pub fn restore(&mut self, tasks: Vec<Task>)
        ensures
            final(self).wf(),
            final(self)@ == spec_restore_tasks(tasks_view(tasks@)),
            final(self).bus() == old(self).bus(),
            final(self).announced() == old(self).announced(),
    {
        let ghost bus0 = self.bus();
        let ghost announced0 = self.announced();
        self.tasks = Vec::new();
        let ghost items = tasks_view(tasks@);
        assert(self@ =~= Seq::<TaskView>::empty());
        assert(items.subrange(0, 0) =~= Seq::<TaskView>::empty());
        let mut i: usize = 0;
        while i < tasks.len()
            invariant
                i <= tasks@.len(),
                items == tasks_view(tasks@),
                self.wf(),
                self@ == spec_restore_tasks(items.subrange(0, i as int)),
                self.bus() == bus0,
                self.announced() == announced0,
            decreases tasks.len() - i,
        {
            let t = tasks[i].clone();
            proof {
                assert(items.subrange(0, i + 1).drop_last() =~= items.subrange(0, i as int));
                assert(items.subrange(0, i + 1).last() == t@);
            }
            self.put(t);
            i = i + 1;
        }
        assert(items.subrange(0, i as int) =~= items);
    }
}

// ── Laws ─────────────────────────────────────────────────────────────────────

/// Storing a task (on creation, status change or new artifact) makes it
/// the one found under its identifier and leaves every other task as it
/// was.
pub proof fn lemma_stored_task_is_found(s: Seq<TaskView>, t: TaskView)
    requires
        keys_unique(s, task_id_of()),
    ensures
        lookup(upsert(s, task_id_of(), t), task_id_of(), t.id) == Some(t),
        forall|k: TaskId| k != t.id ==> #[trigger] lookup(upsert(s, task_id_of(), t), task_id_of(), k)
            == lookup(s, task_id_of(), k),
{
    lemma_upsert(s, task_id_of(), t);
}

/// A status change keeps the task's identity, context, assignment,
/// artifacts and earlier history: the history only grows, by the status
/// message when there is one.
pub proof fn lemma_status_change_keeps_history(t: TaskView, state: TaskState, msg: Option<TaskMessageView>, ts: Timestamp)
    ensures
        ({
            let n = spec_with_status(t, state, msg, ts);
            &&& n.id == t.id && n.context_id == t.context_id && n.assignee == t.assignee
            &&& n.artifacts == t.artifacts
            &&& n.status.state == state
            &&& n.history.len() == t.history.len() + (if msg is Some { 1int } else { 0int })
            &&& n.history.subrange(0, t.history.len() as int) == t.history
        }),
{
    let n = spec_with_status(t, state, msg, ts);
    assert(n.history.subrange(0, t.history.len() as int) =~= t.history);
}

/// A filtered listing holds exactly the tasks that agree with every field
/// the filter sets: each listed task has the filter's context, state and
/// assignee where those are set, and every task that has them is listed;
/// an unset field restricts nothing.
pub proof fn lemma_filtered_listing(s: Seq<TaskView>, f: TaskFilter)
    ensures
        ({
            let r = s.filter(|t: TaskView| spec_filter_matches(f, t));
            &&& forall|i: int| 0 <= i < r.len() ==> {
                &&& (f.context_id matches Some(c) ==> (#[trigger] r[i]).context_id == c)
                &&& (f.state matches Some(st) ==> r[i].status.state == st)
                &&& (f.assignee matches Some(a) ==> r[i].assignee == Some(a))
            }
            &&& forall|i: int| 0 <= i < s.len()
                && (f.context_id matches Some(c) ==> (#[trigger] s[i]).context_id == c)
                && (f.state matches Some(st) ==> s[i].status.state == st)
                && (f.assignee matches Some(a) ==> s[i].assignee == Some(a))
                ==> r.contains(s[i])
            &&& r.len() <= s.len()
        }),
{
    let pred = |t: TaskView| spec_filter_matches(f, t);
    let r = s.filter(pred);
    assert forall|i: int| 0 <= i < r.len() implies {
        &&& (f.context_id matches Some(c) ==> (#[trigger] r[i]).context_id == c)
        &&& (f.state matches Some(st) ==> r[i].status.state == st)
        &&& (f.assignee matches Some(a) ==> r[i].assignee == Some(a))
    } by {
        s.lemma_filter_pred(pred, i);
    }
    assert forall|i: int| 0 <= i < s.len()
        && (f.context_id matches Some(c) ==> (#[trigger] s[i]).context_id == c)
        && (f.state matches Some(st) ==> s[i].status.state == st)
        && (f.assignee matches Some(a) ==> s[i].assignee == Some(a))
        implies r.contains(s[i]) by {
        s.lemma_filter_contains(pred, i);
    }
    s.lemma_filter_len(pred);
}

/// An agent's active tasks are exactly its tasks that have not finished:
/// every task listed is assigned to the agent and is not completed,
/// failed, canceled or rejected, and every task assigned to it that is
/// submitted, working, or waiting for input or authentication is listed.
pub proof fn lemma_active_tasks(s: Seq<TaskView>, a: AgentId)
    ensures
        ({
            let r = s.filter(|t: TaskView| is_active_for(t, a));
            &&& forall|i: int| 0 <= i < r.len() ==> (#[trigger] r[i]).assignee == Some(a)
                && r[i].status.state != TaskState::Completed && r[i].status.state != TaskState::Failed
                && r[i].status.state != TaskState::Canceled && r[i].status.state != TaskState::Rejected
            &&& forall|i: int| 0 <= i < s.len() && (#[trigger] s[i]).assignee == Some(a)
                && (s[i].status.state == TaskState::Submitted || s[i].status.state == TaskState::Working
                    || s[i].status.state == TaskState::InputRequired
                    || s[i].status.state == TaskState::AuthRequired)
                ==> r.contains(s[i])
        }),
{
    let pred = |t: TaskView| is_active_for(t, a);
    let r = s.filter(pred);
    assert forall|i: int| 0 <= i < r.len() implies (#[trigger] r[i]).assignee == Some(a)
        && r[i].status.state != TaskState::Completed && r[i].status.state != TaskState::Failed
        && r[i].status.state != TaskState::Canceled && r[i].status.state != TaskState::Rejected by {
        s.lemma_filter_pred(pred, i);
    }
    assert forall|i: int| 0 <= i < s.len() && (#[trigger] s[i]).assignee == Some(a)
        && (s[i].status.state == TaskState::Submitted || s[i].status.state == TaskState::Working
            || s[i].status.state == TaskState::InputRequired
            || s[i].status.state == TaskState::AuthRequired)
        implies r.contains(s[i]) by {
        s.lemma_filter_contains(pred, i);
    }
}

/// Restoring tasks with distinct identifiers reproduces them exactly, in
/// order.
pub proof fn lemma_restore_keeps_distinct_tasks(items: Seq<TaskView>)
    requires
        keys_unique(items, task_id_of()),
    ensures
        spec_restore_tasks(items) == items,
    decreases items.len(),
{
    if items.len() > 0 {
        let init = items.drop_last();
        let t = items.last();
        assert(forall|i: int| 0 <= i < init.len() ==> init[i] == items[i]);
        assert(keys_unique(init, task_id_of()));
        lemma_restore_keeps_distinct_tasks(init);
        assert(!has_key(init, task_id_of(), t.id)) by {
            if has_key(init, task_id_of(), t.id) {
                let q = key_index(init, task_id_of(), t.id);
                assert(items[q] == init[q]);
                assert(task_id_of()(items[q]) == task_id_of()(items[items.len() - 1]));
            }
        }
        assert(upsert(init, task_id_of(), t) == init.push(t));
        assert(init.push(t) =~= items);
    }
}

} // verus!
