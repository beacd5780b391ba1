//! Domain events and the broadcast bus that fans them out.

use vstd::prelude::*;
use vstd::string::StringExecFns;

use crate::ids::{AgentId, ArtifactId, TaskId, ToolId};
use crate::model::{strings_view, AgentInfo, AgentInfoView, ChatMessage, ChatMessageView, ToolInfo, ToolInfoView};
use crate::task_types::{Task, TaskState, TaskView};

verus! {

#[verifier::external_type_specification]
#[verifier::external_body]
#[verifier::reject_recursive_types(T)]
pub struct ExBroadcastSender<T>(tokio::sync::broadcast::Sender<T>);

#[verifier::external_type_specification]
#[verifier::external_body]
#[verifier::reject_recursive_types(T)]
pub struct ExBroadcastReceiver<T>(tokio::sync::broadcast::Receiver<T>);

/// Events propagated through the message bus.
#[derive(Debug)]
pub enum Event {
    /// A new agent has registered with the nexus.
    AgentRegistered(AgentInfo),
    /// An agent has been removed from the registry.
    AgentDeregistered(AgentId),
    /// A new message has been posted to a conversation.
    NewMessage(ChatMessage),
    /// A new tool has been registered.
    ToolRegistered(ToolInfo),
    /// A tool has been deregistered.
    ToolDeregistered(ToolId),
    /// A new task was created.
    TaskCreated(Box<Task>),
    /// A task's state changed.
    TaskStatusChanged { task_id: TaskId, old_state: TaskState, new_state: TaskState },
    /// An artifact was appended to a task.
    TaskArtifactAdded { task_id: TaskId, artifact_id: ArtifactId },
}

/// The view of an [`Event`].
pub enum EventView {
    AgentRegistered(AgentInfoView),
    AgentDeregistered(AgentId),
    NewMessage(ChatMessageView),
    ToolRegistered(ToolInfoView),
    ToolDeregistered(ToolId),
    TaskCreated(TaskView),
    TaskStatusChanged { task_id: TaskId, old_state: TaskState, new_state: TaskState },
    TaskArtifactAdded { task_id: TaskId, artifact_id: ArtifactId },
}

impl View for Event {
    type V = EventView;

    open spec fn view(&self) -> EventView {
        match self {
            Event::AgentRegistered(a) => EventView::AgentRegistered(a@),
            Event::AgentDeregistered(id) => EventView::AgentDeregistered(*id),
            Event::NewMessage(m) => EventView::NewMessage(m@),
            Event::ToolRegistered(t) => EventView::ToolRegistered(t@),
            Event::ToolDeregistered(id) => EventView::ToolDeregistered(*id),
            Event::TaskCreated(t) => EventView::TaskCreated(t@),
            Event::TaskStatusChanged { task_id, old_state, new_state } => EventView::TaskStatusChanged {
                task_id: *task_id,
                old_state: *old_state,
                new_state: *new_state,
            },
            Event::TaskArtifactAdded { task_id, artifact_id } => EventView::TaskArtifactAdded {
                task_id: *task_id,
                artifact_id: *artifact_id,
            },
        }
    }
}

impl Clone for Event {
    fn clone(&self) -> (r: Self)
        ensures
            r@ == self@,
    {
        match self {
            Event::AgentRegistered(a) => Event::AgentRegistered(a.clone()),
            Event::AgentDeregistered(id) => Event::AgentDeregistered(*id),
            Event::NewMessage(m) => Event::NewMessage(m.clone()),
            Event::ToolRegistered(t) => Event::ToolRegistered(t.clone()),
            Event::ToolDeregistered(id) => Event::ToolDeregistered(*id),
            Event::TaskCreated(t) => Event::TaskCreated(Box::new((**t).clone())),
            Event::TaskStatusChanged { task_id, old_state, new_state } => Event::TaskStatusChanged {
                task_id: *task_id,
                old_state: *old_state,
                new_state: *new_state,
            },
            Event::TaskArtifactAdded { task_id, artifact_id } => Event::TaskArtifactAdded {
                task_id: *task_id,
                artifact_id: *artifact_id,
            },
        }
    }
}

/// The canonical topic string of an event, used for SSE event names and
/// subscription filtering.
pub open spec fn spec_event_type(e: EventView) -> Seq<char> {
    match e {
        EventView::AgentRegistered(_) => "agent_registered"@,
        EventView::AgentDeregistered(_) => "agent_deregistered"@,
        EventView::NewMessage(_) => "new_message"@,
        EventView::ToolRegistered(_) => "tool_registered"@,
        EventView::ToolDeregistered(_) => "tool_deregistered"@,
        EventView::TaskCreated(_) => "task_created"@,
        EventView::TaskStatusChanged { .. } => "task_status_changed"@,
        EventView::TaskArtifactAdded { .. } => "task_artifact_added"@,
    }
}

/// The task an event pertains to, if any.
pub open spec fn spec_event_task(e: EventView) -> Option<TaskId> {
    match e {
        EventView::TaskCreated(t) => Some(t.id),
        EventView::TaskStatusChanged { task_id, .. } => Some(task_id),
        EventView::TaskArtifactAdded { task_id, .. } => Some(task_id),
        _ => None,
    }
}

impl Event {
    /// The canonical topic string of this event.
    pub fn event_type(&self) -> (r: &'static str)
        ensures
            r@ == spec_event_type(self@),
    {
        match self {
            Event::AgentRegistered(_) => "agent_registered",
            Event::AgentDeregistered(_) => "agent_deregistered",
            Event::NewMessage(_) => "new_message",
            Event::ToolRegistered(_) => "tool_registered",
            Event::ToolDeregistered(_) => "tool_deregistered",
            Event::TaskCreated(_) => "task_created",
            Event::TaskStatusChanged { .. } => "task_status_changed",
            Event::TaskArtifactAdded { .. } => "task_artifact_added",
        }
    }
}

/// The task an event pertains to, if any.
pub fn task_id_for_event(event: &Event) -> (r: Option<TaskId>)
    ensures
        r == spec_event_task(event@),
{
    match event {
        Event::TaskCreated(t) => Some(t.id),
        Event::TaskStatusChanged { task_id, .. } => Some(*task_id),
        Event::TaskArtifactAdded { task_id, .. } => Some(*task_id),
        _ => None,
    }
}

/// Whether an event changes the tool registry.
pub fn is_tool_event(event: &Event) -> (r: bool)
    ensures
        r <==> (event@ is ToolRegistered || event@ is ToolDeregistered),
{
    match event {
        Event::ToolRegistered(_) | Event::ToolDeregistered(_) => true,
        _ => false,
    }
}

/// Whether an event passes an optional topic filter: every event passes
/// when there is no filter; otherwise its topic must be among the topics.
pub open spec fn spec_matches_filter(e: EventView, filter: Option<Seq<Seq<char>>>) -> bool {
    match filter {
        None => true,
        Some(topics) => topics.contains(spec_event_type(e)),
    }
}

/// Whether `event` passes the optional topic filter.
pub fn matches_filter(event: &Event, filter: Option<&Vec<String>>) -> (r: bool)
    ensures
        filter is None ==> r,
        filter matches Some(v) ==> (r == spec_matches_filter(event@, Some(strings_view(v@)))),
{
    match filter {
        None => true,
        Some(topics) => {
            let t = String::from_str(event.event_type());
            let ghost want = strings_view(topics@);
            let mut i: usize = 0;
            while i < topics.len()
                invariant
                    i <= topics.len(),
                    want == strings_view(topics@),
                    filter == Some(topics),
                    t@ == spec_event_type(event@),
                    forall|j: int| 0 <= j < i ==> want[j] != t@,
                decreases topics.len() - i,
            {
                if topics[i].eq(&t) {
                    assert(want[i as int] == t@);
                    assert(want.contains(t@));
                    return true;
                }
                i = i + 1;
            }
            assert(!want.contains(t@));
            false
        }
    }
}

// ── Bus ──────────────────────────────────────────────────────────────────────

/// Internal broadcast channel for intra-process event propagation.
///
/// Every published event is fanned out to every active subscriber.
pub struct MessageBus {
    sender: tokio::sync::broadcast::Sender<Event>,
}

/// `tokio::sync::broadcast::channel`: a channel whose ring buffer holds
/// `capacity` values; the initial receiver is dropped at once.
///
/// The crate panics on a zero capacity or one above `usize::MAX / 2`;
/// `requires` leaves those out. Nothing is claimed of the sender.
#[verifier::external_body]
pub(crate) fn broadcast_channel<T: Clone>(capacity: usize) -> (s: tokio::sync::broadcast::Sender<T>)
    requires
        0 < capacity <= usize::MAX / 2,
{
    let (sender, _) = tokio::sync::broadcast::channel(capacity);
    sender
}

/// `tokio::sync::broadcast::Sender::send`: hands `event` to every current
/// receiver; with none the value is dropped. The outcome (how many
/// receivers got it) is not reported to the caller.
#[verifier::external_body]
pub(crate) fn broadcast_send<T>(sender: &tokio::sync::broadcast::Sender<T>, event: T) {
    let _ = sender.send(event);
}

/// `tokio::sync::broadcast::Sender::subscribe`: a receiver of the events
/// sent after this call. The crate panics once the receiver count reaches
/// its internal maximum (about `usize::MAX / 2`), which no contract here
/// can express; nothing is claimed of the receiver.
#[verifier::external_body]
pub(crate) fn broadcast_subscribe<T: Clone>(sender: &tokio::sync::broadcast::Sender<T>) -> (r: tokio::sync::broadcast::Receiver<T>) {
    sender.subscribe()
}

impl MessageBus {
    /// Create a new bus whose buffer holds `capacity` events for lagging
    /// receivers.
    pub fn new(capacity: usize) -> (bus: Self)
        requires
            0 < capacity <= usize::MAX / 2,
    {
        MessageBus { sender: broadcast_channel(capacity) }
    }

    /// Publish an [`Event`] to all current subscribers; with none the event
    /// is silently discarded.
    pub fn publish(&self, event: Event) {
        broadcast_send(&self.sender, event);
    }

    /// Subscribe to events published after this call returns.
    pub fn subscribe(&self) -> tokio::sync::broadcast::Receiver<Event> {
        broadcast_subscribe(&self.sender)
    }
}

// ── WebSocket forwarding ─────────────────────────────────────────────────────

/// What happened on a WebSocket connection that forwards bus events.
pub enum WsInput {
    /// The bus delivered an event.
    BusEvent(Event),
    /// The subscriber fell behind and lost this many events.
    BusLagged(u64),
    /// The bus closed.
    BusClosed,
    /// The client went away or its stream failed.
    ClientGone,
    /// The client sent a close frame.
    ClientClose,
    /// The client sent another frame (ping, binary, further text).
    ClientOther,
}

/// What the connection does next.
pub enum WsAction {
    /// Send the event to the client.
    Forward(Event),
    /// Nothing to send; keep going.
    Continue,
    /// Answer with a close frame, then end the connection.
    CloseAndStop,
    /// End the connection.
    Stop,
}

/// The connection's step: events that pass the topic filter are forwarded
/// and others skipped; lag and client chatter are ignored; the bus closing
/// or the client leaving ends the connection, a close frame being
/// answered first.
pub fn ws_step(filter: Option<&Vec<String>>, input: WsInput) -> (r: WsAction)
    ensures
        match input {
            WsInput::BusEvent(e) => if spec_matches_filter(e@, match filter { Some(v) => Some(strings_view(v@)), None => None }) {
                r matches WsAction::Forward(f) && f@ == e@
            } else {
                r is Continue
            },
            WsInput::BusLagged(_) => r is Continue,
            WsInput::ClientOther => r is Continue,
            WsInput::BusClosed => r is Stop,
            WsInput::ClientGone => r is Stop,
            WsInput::ClientClose => r is CloseAndStop,
        },
{
    match input {
        WsInput::BusEvent(e) => {
            if matches_filter(&e, filter) {
                WsAction::Forward(e)
            } else {
                WsAction::Continue
            }
        },
        WsInput::BusLagged(_) => WsAction::Continue,
        WsInput::ClientOther => WsAction::Continue,
        WsInput::BusClosed => WsAction::Stop,
        WsInput::ClientGone => WsAction::Stop,
        WsInput::ClientClose => WsAction::CloseAndStop,
    }
}

} // verus!
