use trumpet::ids::{AgentId, ConversationId, MessageId, TaskId};
use trumpet::mcp::{
    assign_task_text, classify_resource_uri, format_participants, inspect_conversation_text, not_found,
    prompt_catalog, required_arg, resource_catalog, route_prompt, summarize_task_text, McpProblem, PromptKind,
    ResourceTarget,
};
use trumpet::model::{ChatMessage, Timestamp};
use trumpet::mcp::parse_uuid_arg;
use trumpet::mcp::parse_participants;
use trumpet::mcp::parse_state_arg;
use trumpet::task_types::TaskState;
use trumpet::events::Event;
use trumpet::ids::ToolId;
use trumpet::mcp::{notifier_step, NotifierAction, NotifierInput, NotifierState};

fn invalid(p: McpProblem) -> String {
    match p {
        McpProblem::InvalidParams(m) => m,
        other => panic!("expected InvalidParams, got {other:?}"),
    }
}

#[test]
fn resource_catalog_lists_collections() {
    let uris: Vec<String> = resource_catalog().into_iter().map(|r| r.uri).collect();
    assert_eq!(uris, vec!["trumpet://agents", "trumpet://conversations", "trumpet://tasks", "trumpet://tools"]);
}

#[test]
fn classify_collections_and_items() {
    assert_eq!(classify_resource_uri("trumpet://agents").unwrap(), ResourceTarget::Agents);
    assert_eq!(classify_resource_uri("trumpet://tools").unwrap(), ResourceTarget::Tools);
    let a = AgentId::new();
    assert_eq!(classify_resource_uri(&format!("trumpet://agents/{}", a.to_string())).unwrap(), ResourceTarget::Agent(a));
    let c = ConversationId::new();
    assert_eq!(
        classify_resource_uri(&format!("trumpet://conversations/{}", c.to_string())).unwrap(),
        ResourceTarget::Conversation(c)
    );
    let t = TaskId::new();
    assert_eq!(classify_resource_uri(&format!("trumpet://tasks/{}", t.to_string())).unwrap(), ResourceTarget::Task(t));
}

#[test]
fn classify_rejects_bad_uris() {
    assert_eq!(invalid(classify_resource_uri("trumpet://agents/xyz").unwrap_err()), "invalid agent id: xyz");
    assert_eq!(invalid(classify_resource_uri("trumpet://tasks/").unwrap_err()), "invalid task id: ");
    assert_eq!(invalid(classify_resource_uri("http://x").unwrap_err()), "unknown resource URI: http://x");
    assert_eq!(invalid(not_found("agent", "abc")), "agent not found: abc");
}

#[test]
fn prompts_are_routed_by_name() {
    let names: Vec<String> = prompt_catalog().into_iter().map(|p| p.name).collect();
    assert_eq!(names, vec!["summarize_task", "assign_task", "inspect_conversation"]);
    assert_eq!(route_prompt("assign_task").unwrap(), PromptKind::AssignTask);
    assert_eq!(invalid(route_prompt("nope").unwrap_err()), "unknown prompt: nope");
    assert_eq!(required_arg("task_id", Some("v".to_owned())).unwrap(), "v");
    assert_eq!(invalid(required_arg("task_id", None).unwrap_err()), "missing argument: task_id");
}

#[test]
fn prompt_texts_embed_their_inputs() {
    assert!(summarize_task_text("{\"id\":1}").ends_with("\n\nTask:\n{\"id\":1}"));
    let t = assign_task_text("lint", "fix it", "[]");
    assert!(t.ends_with("Required tags: lint\n\nTask:\nfix it\n\nAgents:\n[]"));
}

#[test]
fn participants_are_sorted_and_joined() {
    assert_eq!(format_participants(&vec![]), "(none)");
    let hi = AgentId(0xffffffff_ffff_4fff_bfff_ffffffffffff);
    let lo = AgentId(0x00000000_0000_4000_8000_000000000001);
    assert_eq!(
        format_participants(&vec![hi, lo]),
        "00000000-0000-4000-8000-000000000001, ffffffff-ffff-4fff-bfff-ffffffffffff"
    );
}

#[test]
fn conversation_review_renders_each_message() {
    let id = ConversationId(1);
    let sender = AgentId(2);
    let msg = ChatMessage {
        id: MessageId(3),
        conversation_id: id,
        sender,
        content: "hello".to_owned(),
        timestamp: Timestamp { secs: 0, nanos: 0 },
    };
    let text = inspect_conversation_text(Some("plan"), id, &vec![sender], &[msg]);
    assert!(text.contains("Conversation: plan (id=00000000-0000-0000-0000-000000000001)\n"));
    assert!(text.contains("Participants: 00000000-0000-0000-0000-000000000002\n\n"));
    assert!(text.ends_with("[1970-01-01T00:00:00Z] 00000000-0000-0000-0000-000000000002: hello\n"));
    let unnamed = inspect_conversation_text(None, id, &vec![], &[]);
    assert!(unnamed.ends_with("Conversation: (unnamed) (id=00000000-0000-0000-0000-000000000001)\nParticipants: (none)\n\n"));
}

#[test]
fn uuid_arguments_report_the_parser_reason() {
    let a = AgentId::new();
    assert_eq!(parse_uuid_arg("agent_id", &a.to_string()).unwrap(), a.0);
    let m = invalid(parse_uuid_arg("agent_id", "zzz").unwrap_err());
    assert!(m.starts_with("invalid agent_id: "), "{m}");
    assert!(m.len() > "invalid agent_id: ".len(), "the parser's reason follows: {m}");
}

#[test]
fn participants_parse_in_order_or_name_the_first_bad_one() {
    let a = AgentId::new();
    let b = AgentId::new();
    assert_eq!(parse_participants(&vec![a.to_string(), b.to_string()]).unwrap(), vec![a, b]);
    let m = invalid(parse_participants(&vec![a.to_string(), "first".to_owned(), "second".to_owned()]).unwrap_err());
    assert!(m.starts_with("invalid agent_id 'first': "), "{m}");
}

#[test]
fn state_argument() {
    assert_eq!(parse_state_arg("canceled").unwrap(), TaskState::Canceled);
    assert_eq!(invalid(parse_state_arg("Canceled").unwrap_err()), "invalid state: 'Canceled'");
}

#[test]
fn tool_notifier_coalesces_a_burst() {
    let (s, a) = notifier_step(NotifierState::Idle, NotifierInput::BusEvent(Event::AgentDeregistered(AgentId::new())));
    assert_eq!((s, a), (NotifierState::Idle, NotifierAction::Wait));
    let (s, a) = notifier_step(s, NotifierInput::BusEvent(Event::ToolDeregistered(ToolId::new())));
    assert_eq!((s, a), (NotifierState::Coalescing, NotifierAction::OpenWindow));
    let (s, a) = notifier_step(s, NotifierInput::BusEvent(Event::ToolDeregistered(ToolId::new())));
    assert_eq!((s, a), (NotifierState::Coalescing, NotifierAction::Wait));
    let (s, a) = notifier_step(s, NotifierInput::BusLagged);
    assert_eq!((s, a), (NotifierState::Coalescing, NotifierAction::Wait));
    let (s, a) = notifier_step(s, NotifierInput::WindowElapsed);
    assert_eq!((s, a), (NotifierState::Idle, NotifierAction::Notify));
    assert_eq!(notifier_step(s, NotifierInput::SendFailed).1, NotifierAction::Stop);
    assert_eq!(notifier_step(s, NotifierInput::Sent).1, NotifierAction::Wait);
    assert_eq!(notifier_step(NotifierState::Idle, NotifierInput::BusClosed).1, NotifierAction::Stop);
    assert_eq!(notifier_step(NotifierState::Coalescing, NotifierInput::BusClosed).1, NotifierAction::NotifyAndStop);
}
