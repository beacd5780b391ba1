use std::sync::Arc;

use trumpet::error::Error;
use trumpet::events::MessageBus;
use trumpet::ids::{AgentId, MessageId, ToolId};
use trumpet::model::{Timestamp, AgentInfo, AgentStatus, ToolInfo, ToolProvider};
use trumpet::router::{plan_invocation, tool_task_message, DefaultTaskRouter, InvocationPlan, TaskRouter};
use trumpet::task_manager::TaskManager;
use trumpet::task_types::{MessageRole, Part, Task, TaskMessage};

fn make_agent(id: AgentId, status: AgentStatus) -> AgentInfo {
    AgentInfo { id, name: "test-agent".to_owned(), registered_at: Timestamp { secs: 1_700_000_000, nanos: 0 }, status, capabilities: None }
}

fn make_task(assignee: Option<AgentId>) -> Task {
    let mut mgr = TaskManager::new(Arc::new(MessageBus::new(16)));
    let msg = TaskMessage {
        id: MessageId::new(),
        role: MessageRole::User,
        parts: vec![Part::Text { text: "hi".to_owned() }],
        metadata: None,
    };
    mgr.create_task(msg, None, assignee, None, None).expect("create_task must succeed in test helper")
}

fn make_tool(provider: ToolProvider) -> ToolInfo {
    ToolInfo {
        id: ToolId::new(),
        name: "t".to_owned(),
        description: "d".to_owned(),
        input_schema: "{}".to_owned(),
        output_schema: "{}".to_owned(),
        provider,
    }
}

#[test]
fn explicit_assignment_returns_assignee() {
    let id = AgentId::new();
    let agent = make_agent(id, AgentStatus::Connected);
    let task = make_task(Some(id));
    let router = DefaultTaskRouter;
    let selected = router.select_agent(&task, &[&agent]);
    assert_eq!(selected, Some(id), "should return the explicitly assigned connected agent");
}

#[test]
fn explicit_assignment_skips_disconnected() {
    let id = AgentId::new();
    let agent = make_agent(id, AgentStatus::Disconnected);
    let task = make_task(Some(id));
    let router = DefaultTaskRouter;
    let selected = router.select_agent(&task, &[&agent]);
    assert_eq!(selected, None, "should return None when assignee is Disconnected and no other agents available");
}

#[test]
fn falls_back_to_connected_agent() {
    let id = AgentId::new();
    let connected = make_agent(id, AgentStatus::Connected);
    let task = make_task(None);
    let router = DefaultTaskRouter;
    let selected = router.select_agent(&task, &[&connected]);
    assert_eq!(selected, Some(id), "should fall back to the first connected agent when no assignee");
}

#[test]
fn disconnected_assignee_falls_back_to_first_connected() {
    let assignee = AgentId::new();
    let other = AgentId::new();
    let third = AgentId::new();
    let a = make_agent(assignee, AgentStatus::Disconnected);
    let b = make_agent(other, AgentStatus::Connected);
    let c = make_agent(third, AgentStatus::Connected);
    let task = make_task(Some(assignee));
    assert_eq!(DefaultTaskRouter.select(&task, &[&a, &b, &c]), Some(other));
    assert_eq!(DefaultTaskRouter.select(&make_task(None), &[]), None);
}

#[test]
fn assignee_preferred_over_earlier_connected_agent() {
    let first = AgentId::new();
    let assignee = AgentId::new();
    let a = make_agent(first, AgentStatus::Connected);
    let b = make_agent(assignee, AgentStatus::Connected);
    assert_eq!(DefaultTaskRouter.select(&make_task(Some(assignee)), &[&a, &b]), Some(assignee));
}

#[test]
fn invoke_unknown_tool_returns_not_found() {
    assert!(matches!(plan_invocation("nonexistent", None, true, None), Err(Error::ToolNotFound { .. })));
}

#[test]
fn invoke_builtin_tool_returns_immediate() {
    let tool = make_tool(ToolProvider::BuiltIn);
    assert_eq!(plan_invocation("code.read_file", Some(&tool), true, None).unwrap(), InvocationPlan::BuiltIn);
    match plan_invocation("code.read_file", Some(&tool), false, None) {
        Err(Error::ToolInvocationFailed { name, reason }) => {
            assert_eq!(name, "code.read_file");
            assert_eq!(reason, "built-in tools not initialized");
        }
        other => panic!("expected ToolInvocationFailed, got {other:?}"),
    }
}

#[test]
fn invoke_agent_tool_creates_task() {
    let agent_id = AgentId::new();
    let agent = make_agent(agent_id, AgentStatus::Connected);
    let tool = make_tool(ToolProvider::Agent { agent_id });
    assert_eq!(
        plan_invocation("agent.research", Some(&tool), false, Some(&agent)).unwrap(),
        InvocationPlan::Agent { agent_id }
    );
}

#[test]
fn invoke_agent_tool_disconnected_returns_unavailable() {
    let agent_id = AgentId::new();
    let tool = make_tool(ToolProvider::Agent { agent_id });
    assert!(matches!(
        plan_invocation("agent.gone", Some(&tool), true, None),
        Err(Error::ToolProviderUnavailable { .. })
    ));
    let offline = make_agent(agent_id, AgentStatus::Disconnected);
    assert!(matches!(
        plan_invocation("agent.gone", Some(&tool), true, Some(&offline)),
        Err(Error::ToolProviderUnavailable { .. })
    ));
}

#[test]
fn tool_task_message_names_the_tool() {
    let m = tool_task_message("agent.research", "{\"query\":\"test\"}".to_owned());
    assert_eq!(m.role, MessageRole::User);
    assert_eq!(m.metadata.as_deref(), Some("{\"tool_name\":\"agent.research\"}"));
    assert_eq!(m.parts.len(), 1);
    match &m.parts[0] {
        Part::Text { text } => assert_eq!(text, "{\"query\":\"test\"}"),
        other => panic!("expected a text part, got {other:?}"),
    }
    let q = tool_task_message("a\"b", String::new());
    assert_eq!(q.metadata.as_deref(), Some("{\"tool_name\":\"a\\\"b\"}"));
}

#[test]
fn tool_task_message_escapes_the_tool_name() {
    let msg = tool_task_message("a\"b\\c\nd\u{1}", "{}".to_owned());
    assert_eq!(msg.metadata.as_deref(), Some("{\"tool_name\":\"a\\\"b\\\\c\\nd\\u0001\"}"));
}
