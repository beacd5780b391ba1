use std::sync::Arc;

use trumpet::error::Error;
use trumpet::events::{Event, MessageBus};
use trumpet::ids::{AgentId, ArtifactId, ContextId, MessageId, TaskId};
use trumpet::task_manager::{TaskEvent, TaskManager};
use trumpet::task_types::{Artifact, MessageRole, Part, TaskFilter, TaskMessage, TaskState};

fn make_manager() -> TaskManager {
    let bus = Arc::new(MessageBus::new(16));
    TaskManager::new(bus)
}

fn make_message() -> TaskMessage {
    TaskMessage {
        id: MessageId::new(),
        role: MessageRole::User,
        parts: vec![Part::Text { text: "hello".to_owned() }],
        metadata: None,
    }
}

fn make_artifact() -> Artifact {
    Artifact {
        id: ArtifactId::new(),
        name: Some("output.txt".to_owned()),
        description: None,
        parts: vec![Part::Text { text: "result".to_owned() }],
        metadata: None,
    }
}

fn reason(e: Error) -> String {
    match e {
        Error::InternalUnexpected { reason } => reason,
        other => panic!("expected InternalUnexpected, got {other:?}"),
    }
}

#[test]
fn create_task_succeeds() {
    let mut mgr = make_manager();
    let task = mgr.create_task(make_message(), None, None, None, None).expect("create_task must succeed");
    assert_eq!(task.status.state, TaskState::Submitted, "new task must start in Submitted state");
    assert_eq!(task.history.len(), 1, "history must contain the initial message");
    assert!(task.artifacts.is_empty());
}

#[test]
fn create_task_keeps_given_context_and_parties() {
    let mut mgr = make_manager();
    let ctx = ContextId::new();
    let assignee = AgentId::new();
    let creator = AgentId::new();
    let task = mgr
        .create_task(make_message(), Some(ctx), Some(assignee), Some(creator), Some("{\"k\":1}".to_owned()))
        .unwrap();
    assert_eq!(task.context_id, ctx);
    assert_eq!(task.assignee, Some(assignee));
    assert_eq!(task.creator, Some(creator));
    assert_eq!(task.metadata.as_deref(), Some("{\"k\":1}"));
}

#[test]
fn create_task_generates_context_id_when_none() {
    let mut mgr = make_manager();
    let task1 = mgr.create_task(make_message(), None, None, None, None).expect("first create_task must succeed");
    let task2 = mgr.create_task(make_message(), None, None, None, None).expect("second create_task must succeed");
    assert_ne!(task1.context_id, task2.context_id, "each task with no explicit context_id must get a unique one");
}

#[test]
fn get_returns_created_task() {
    let mut mgr = make_manager();
    let task = mgr.create_task(make_message(), None, None, None, None).expect("create_task must succeed");
    let found = mgr.get(&task.id).expect("get must return the created task");
    assert_eq!(found.id, task.id, "retrieved task id must match");
    assert!(mgr.get(&TaskId::new()).is_none());
}

#[test]
fn list_filtered_by_state() {
    let mut mgr = make_manager();
    let task1 = mgr.create_task(make_message(), None, None, None, None).expect("first create must succeed");
    let task2 = mgr.create_task(make_message(), None, None, None, None).expect("second create must succeed");
    mgr.update_status(&task2.id, TaskState::Working, None).expect("transition to Working must succeed");
    let filter = TaskFilter { state: Some(TaskState::Submitted), context_id: None, assignee: None };
    let results = mgr.list_filtered(&filter);
    assert_eq!(results.len(), 1, "only one task should be Submitted");
    assert_eq!(results[0].id, task1.id, "the Submitted task must be task1");
    assert_eq!(mgr.list().len(), 2);
}

#[test]
fn list_filtered_by_context_and_assignee() {
    let mut mgr = make_manager();
    let ctx = ContextId::new();
    let agent = AgentId::new();
    let a = mgr.create_task(make_message(), Some(ctx), Some(agent), None, None).unwrap();
    mgr.create_task(make_message(), Some(ctx), None, None, None).unwrap();
    mgr.create_task(make_message(), None, Some(agent), None, None).unwrap();
    let both = TaskFilter { state: None, context_id: Some(ctx), assignee: Some(agent) };
    let r = mgr.list_filtered(&both);
    assert_eq!(r.len(), 1);
    assert_eq!(r[0].id, a.id);
    let none = TaskFilter { state: None, context_id: None, assignee: None };
    assert_eq!(mgr.list_filtered(&none).len(), 3);
}

#[test]
fn update_status_valid_transition() {
    let mut mgr = make_manager();
    let task = mgr.create_task(make_message(), None, None, None, None).expect("create must succeed");
    let updated = mgr.update_status(&task.id, TaskState::Working, None).expect("Submitted → Working is a valid transition");
    assert_eq!(updated.status.state, TaskState::Working, "task must be in Working state after transition");
    assert_eq!(mgr.get(&task.id).unwrap().status.state, TaskState::Working);
}

#[test]
fn update_status_appends_message_to_history() {
    let mut mgr = make_manager();
    let task = mgr.create_task(make_message(), None, None, None, None).unwrap();
    let note = make_message();
    let note_id = note.id;
    let updated = mgr.update_status(&task.id, TaskState::Working, Some(note)).unwrap();
    assert_eq!(updated.history.len(), 2);
    assert_eq!(updated.history[1].id, note_id);
    assert_eq!(updated.status.message.as_ref().unwrap().id, note_id);
}

#[test]
fn update_status_invalid_transition() {
    let mut mgr = make_manager();
    let task = mgr.create_task(make_message(), None, None, None, None).expect("create must succeed");
    let err = mgr.update_status(&task.id, TaskState::Completed, None).err().expect("Submitted → Completed must be rejected");
    assert_eq!(
        reason(err),
        format!("invalid task transition: Submitted \u{2192} Completed for task '{}'", task.id.to_string())
    );
    assert_eq!(mgr.get(&task.id).unwrap().status.state, TaskState::Submitted);
}

#[test]
fn update_status_terminal_rejects() {
    let mut mgr = make_manager();
    let task = mgr.create_task(make_message(), None, None, None, None).expect("create must succeed");
    mgr.update_status(&task.id, TaskState::Working, None).expect("Submitted → Working");
    mgr.update_status(&task.id, TaskState::Completed, None).expect("Working → Completed");
    let err = mgr.update_status(&task.id, TaskState::Working, None).err().expect("Completed → Working must be rejected");
    assert!(matches!(err, Error::InternalUnexpected { .. }), "expected InternalUnexpected for terminal → active, got: {err:?}");
}

#[test]
fn update_status_unknown_task() {
    let mut mgr = make_manager();
    let id = TaskId::new();
    let err = mgr.update_status(&id, TaskState::Working, None).err().unwrap();
    assert_eq!(reason(err), format!("task '{}' not found", id.to_string()));
}

#[test]
fn add_artifact_succeeds() {
    let mut mgr = make_manager();
    let task = mgr.create_task(make_message(), None, None, None, None).expect("create must succeed");
    let artifact = make_artifact();
    let artifact_id = artifact.id;
    let updated = mgr.add_artifact(&task.id, artifact).expect("add_artifact must succeed");
    assert_eq!(updated.artifacts.len(), 1, "task must have exactly one artifact");
    assert_eq!(updated.artifacts[0].id, artifact_id, "artifact id must match");
    assert!(mgr.add_artifact(&TaskId::new(), make_artifact()).is_err());
}

#[test]
fn cancel_from_working_succeeds() {
    let mut mgr = make_manager();
    let task = mgr.create_task(make_message(), None, None, None, None).expect("create must succeed");
    mgr.update_status(&task.id, TaskState::Working, None).expect("Submitted → Working");
    let canceled = mgr.cancel(&task.id).expect("cancel must succeed from Working");
    assert_eq!(canceled.status.state, TaskState::Canceled, "task must be in Canceled state after cancel()");
}

#[test]
fn cancel_of_terminal_task_fails() {
    let mut mgr = make_manager();
    let task = mgr.create_task(make_message(), None, None, None, None).unwrap();
    mgr.cancel(&task.id).unwrap();
    let err = mgr.cancel(&task.id).err().unwrap();
    assert_eq!(
        reason(err),
        format!("invalid task transition: Canceled \u{2192} Canceled for task '{}'", task.id.to_string())
    );
}

#[test]
fn tasks_for_agent_returns_active_only() {
    let mut mgr = make_manager();
    let agent = AgentId::new();
    let task1 = mgr.create_task(make_message(), None, Some(agent), None, None).expect("create task1 must succeed");
    let task2 = mgr.create_task(make_message(), None, Some(agent), None, None).expect("create task2 must succeed");
    mgr.update_status(&task1.id, TaskState::Working, None).expect("Submitted → Working");
    mgr.update_status(&task1.id, TaskState::Completed, None).expect("Working → Completed");
    let active = mgr.tasks_for_agent(&agent);
    assert_eq!(active.len(), 1, "only the non-terminal task must be returned");
    assert_eq!(active[0].id, task2.id, "the active task must be task2");
    assert!(mgr.tasks_for_agent(&AgentId::new()).is_empty());
}

#[test]
fn restore_populates_tasks() {
    let mut mgr = make_manager();
    let original = mgr.create_task(make_message(), None, None, None, None).expect("create must succeed");
    let snapshot = vec![original.clone()];
    let mut mgr2 = make_manager();
    mgr2.restore(snapshot);
    let found = mgr2.get(&original.id).expect("restored task must be retrievable by id");
    assert_eq!(found.id, original.id, "restored task id must match");
    assert_eq!(found.context_id, original.context_id, "restored context_id must match");
}

#[test]
fn task_events_go_to_both_channels() {
    let bus = Arc::new(MessageBus::new(16));
    let mut mgr = TaskManager::new(Arc::clone(&bus));
    let mut global = bus.subscribe();
    let mut local = mgr.subscribe();
    let task = mgr.create_task(make_message(), None, None, None, None).unwrap();
    mgr.update_status(&task.id, TaskState::Working, None).unwrap();
    match local.try_recv().unwrap() {
        TaskEvent::TaskCreated(t) => assert_eq!(t.id, task.id),
        other => panic!("expected TaskCreated, got {other:?}"),
    }
    match local.try_recv().unwrap() {
        TaskEvent::TaskStatusChanged { task_id, old_state, new_state } => {
            assert_eq!(task_id, task.id);
            assert_eq!(old_state, TaskState::Submitted);
            assert_eq!(new_state, TaskState::Working);
        }
        other => panic!("expected TaskStatusChanged, got {other:?}"),
    }
    assert!(matches!(global.try_recv().unwrap(), Event::TaskCreated(_)));
    assert!(matches!(global.try_recv().unwrap(), Event::TaskStatusChanged { .. }));
}

#[test]
fn rejected_transition_publishes_nothing() {
    let bus = Arc::new(MessageBus::new(16));
    let mut mgr = TaskManager::new(Arc::clone(&bus));
    let task = mgr.create_task(make_message(), None, None, None, None).unwrap();
    let mut global = bus.subscribe();
    assert!(mgr.update_status(&task.id, TaskState::Completed, None).is_err());
    assert!(global.try_recv().is_err());
}
