use trumpet::chat::parse_conversation_id;
use trumpet::error::Error;
use trumpet::events::{is_tool_event, matches_filter, task_id_for_event, ws_step, Event, MessageBus, WsAction, WsInput};
use trumpet::ids::{AgentId, ArtifactId, ConversationId, MessageId, PushNotificationId, TaskId, ToolId};
use trumpet::model::{Timestamp, AgentInfo, AgentStatus, ChatMessage, ToolInfo, ToolProvider};
use trumpet::task_types::TaskState;

fn make_agent_info() -> AgentInfo {
    AgentInfo { id: AgentId::new(), name: "test".to_owned(), registered_at: Timestamp { secs: 1_700_000_000, nanos: 0 }, status: AgentStatus::Connected, capabilities: None }
}

fn make_message() -> ChatMessage {
    ChatMessage {
        id: MessageId::new(),
        conversation_id: ConversationId::new(),
        sender: AgentId::new(),
        content: "hello".to_owned(),
        timestamp: Timestamp { secs: 1_700_000_000, nanos: 0 },
    }
}

fn dummy_tool() -> ToolInfo {
    ToolInfo {
        id: ToolId::new(),
        name: "test".to_owned(),
        description: "desc".to_owned(),
        input_schema: "{}".to_owned(),
        output_schema: "{}".to_owned(),
        provider: ToolProvider::BuiltIn,
    }
}

fn is_uuid_text(s: &str) -> bool {
    s.len() == 36 && s.chars().all(|c| c.is_ascii_hexdigit() || c == '-')
}

#[test]
fn agent_id_new_produces_unique_ids() {
    assert_ne!(AgentId::new(), AgentId::new(), "two freshly generated AgentIds must not be equal");
}

#[test]
fn conversation_id_new_produces_unique_ids() {
    assert_ne!(ConversationId::new(), ConversationId::new());
}

#[test]
fn message_id_new_produces_unique_ids() {
    assert_ne!(MessageId::new(), MessageId::new());
}

#[test]
fn tool_id_new_produces_unique_ids() {
    assert_ne!(ToolId::new(), ToolId::new(), "two freshly generated ToolIds must not be equal");
}

#[test]
fn tool_id_display_is_valid_uuid_string() {
    let s = ToolId::new().to_string();
    assert!(is_uuid_text(&s), "display must be a hyphenated UUID: {s}");
}

#[test]
fn agent_id_display_is_valid_uuid_string() {
    let s = AgentId::new().to_string();
    assert!(is_uuid_text(&s), "display must be a hyphenated UUID: {s}");
    assert_eq!(&s[14..15], "4", "version nibble of a v4 UUID");
}

#[test]
fn ids_round_trip_through_text() {
    let t = TaskId::new();
    assert_eq!(TaskId::from_text(&t.to_string()), Ok(t));
    let p = PushNotificationId::new();
    assert_eq!(p.to_string().parse::<PushNotificationId>(), Ok(p));
    assert_eq!(AgentId(0x0123456789abcdef0123456789abcdef).to_string(), "01234567-89ab-cdef-0123-456789abcdef");
    assert!(ArtifactId::from_text("nope").is_err());
}

#[test]
fn parse_conversation_id_valid_uuid_succeeds() {
    let uuid_str = "550e8400-e29b-41d4-a716-446655440000";
    let result = parse_conversation_id(uuid_str);
    assert!(result.is_ok(), "valid UUID string must parse to ConversationId, got: {result:?}");
    assert_eq!(result.unwrap(), ConversationId(0x550e8400e29b41d4a716446655440000));
}

#[test]
fn parse_conversation_id_invalid_string_returns_not_found_error() {
    let result = parse_conversation_id("not-a-uuid");
    assert!(
        matches!(result, Err(Error::ConversationNotFound { ref id }) if id == "not-a-uuid"),
        "invalid UUID must produce ConversationNotFound, got: {result:?}"
    );
}

#[test]
fn event_type_agent_registered() {
    assert_eq!(Event::AgentRegistered(make_agent_info()).event_type(), "agent_registered");
}

#[test]
fn event_type_agent_deregistered() {
    assert_eq!(Event::AgentDeregistered(AgentId::new()).event_type(), "agent_deregistered");
}

#[test]
fn event_type_new_message() {
    assert_eq!(Event::NewMessage(make_message()).event_type(), "new_message");
}

#[test]
fn event_type_tool_registered() {
    assert_eq!(Event::ToolRegistered(dummy_tool()).event_type(), "tool_registered");
}

#[test]
fn event_type_tool_deregistered() {
    assert_eq!(Event::ToolDeregistered(ToolId::new()).event_type(), "tool_deregistered");
}

#[test]
fn event_type_task_events() {
    let id = TaskId::new();
    let changed = Event::TaskStatusChanged { task_id: id, old_state: TaskState::Working, new_state: TaskState::Failed };
    assert_eq!(changed.event_type(), "task_status_changed");
    assert_eq!(task_id_for_event(&changed), Some(id));
    let added = Event::TaskArtifactAdded { task_id: id, artifact_id: ArtifactId::new() };
    assert_eq!(added.event_type(), "task_artifact_added");
    assert_eq!(task_id_for_event(&added), Some(id));
    assert_eq!(task_id_for_event(&Event::NewMessage(make_message())), None);
}

#[test]
fn is_tool_event_recognises_registry_events() {
    assert!(is_tool_event(&Event::ToolRegistered(dummy_tool())));
    assert!(is_tool_event(&Event::ToolDeregistered(ToolId::new())));
}

#[test]
fn is_tool_event_ignores_other_variants() {
    assert!(!is_tool_event(&Event::AgentDeregistered(AgentId::new())));
    assert!(!is_tool_event(&Event::NewMessage(make_message())));
}

#[test]
fn subscription_filter_accepts_matching_event() {
    let filter = vec!["agent_registered".to_owned()];
    assert!(matches_filter(&Event::AgentRegistered(make_agent_info()), Some(&filter)));
}

#[test]
fn subscription_filter_rejects_non_matching_event() {
    let filter = vec!["agent_registered".to_owned()];
    assert!(!matches_filter(&Event::NewMessage(make_message()), Some(&filter)));
    assert!(!matches_filter(&Event::NewMessage(make_message()), Some(&vec![])));
}

#[test]
fn empty_filter_accepts_all_events() {
    assert!(matches_filter(&Event::AgentRegistered(make_agent_info()), None));
    assert!(matches_filter(&Event::NewMessage(make_message()), None));
}

#[test]
fn websocket_steps() {
    let filter = vec!["new_message".to_owned()];
    assert!(matches!(ws_step(Some(&filter), WsInput::BusEvent(Event::NewMessage(make_message()))), WsAction::Forward(_)));
    assert!(matches!(
        ws_step(Some(&filter), WsInput::BusEvent(Event::AgentDeregistered(AgentId::new()))),
        WsAction::Continue
    ));
    assert!(matches!(ws_step(None, WsInput::BusLagged(3)), WsAction::Continue));
    assert!(matches!(ws_step(None, WsInput::ClientOther), WsAction::Continue));
    assert!(matches!(ws_step(None, WsInput::BusClosed), WsAction::Stop));
    assert!(matches!(ws_step(None, WsInput::ClientGone), WsAction::Stop));
    assert!(matches!(ws_step(None, WsInput::ClientClose), WsAction::CloseAndStop));
}

#[test]
fn publish_and_subscribe_should_deliver_event_to_subscriber() {
    let bus = MessageBus::new(16);
    let mut rx = bus.subscribe();
    let info = make_agent_info();
    let id = info.id;
    bus.publish(Event::AgentRegistered(info));
    let Event::AgentRegistered(received) = rx.try_recv().expect("subscriber must receive the event") else {
        panic!("expected AgentRegistered");
    };
    assert_eq!(received.id, id);
}

#[test]
fn multiple_subscribers_should_each_receive_same_event() {
    let bus = MessageBus::new(16);
    let mut rx1 = bus.subscribe();
    let mut rx2 = bus.subscribe();
    let msg = make_message();
    let id = msg.id;
    bus.publish(Event::NewMessage(msg));
    let Event::NewMessage(m1) = rx1.try_recv().unwrap() else { panic!("subscriber 1: expected NewMessage") };
    let Event::NewMessage(m2) = rx2.try_recv().unwrap() else { panic!("subscriber 2: expected NewMessage") };
    assert_eq!(m1.id, id);
    assert_eq!(m2.id, id);
}

#[test]
fn subscriber_after_publish_should_miss_earlier_event() {
    let bus = MessageBus::new(16);
    bus.publish(Event::AgentDeregistered(AgentId::new()));
    let mut rx = bus.subscribe();
    assert!(rx.try_recv().is_err(), "late subscriber must not receive earlier events");
}

#[test]
fn publish_with_no_subscribers_should_not_panic() {
    let bus = MessageBus::new(16);
    bus.publish(Event::AgentRegistered(make_agent_info()));
    bus.publish(Event::NewMessage(make_message()));
}
