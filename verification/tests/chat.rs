use std::sync::Arc;

use trumpet::chat::ChatManager;
use trumpet::error::Error;
use trumpet::events::{Event, MessageBus};
use trumpet::ids::{AgentId, ConversationId, MessageId};
use trumpet::model::{Timestamp, ChatMessage, Conversation};

fn make_bus() -> Arc<MessageBus> {
    Arc::new(MessageBus::new(64))
}

fn make_agent() -> AgentId {
    AgentId::new()
}

#[test]
fn create_conversation_succeeds() {
    let mut mgr = ChatManager::new(make_bus());
    let agent = make_agent();
    let conv = mgr
        .create_conversation(Some("planning".to_owned()), vec![agent])
        .expect("create_conversation must succeed with one participant");
    assert_eq!(conv.name.as_deref(), Some("planning"), "conversation name must match");
    assert_eq!(conv.participants.len(), 1, "participants count must match");
    assert!(conv.participants.contains(&agent), "participant must be present");
    assert!(mgr.get_conversation(&conv.id).is_some(), "conversation must be retrievable by id");
    assert!(mgr.get_messages(&conv.id).unwrap().is_empty());
}

#[test]
fn create_conversation_drops_duplicate_participants() {
    let mut mgr = ChatManager::new(make_bus());
    let a = make_agent();
    let b = make_agent();
    let conv = mgr.create_conversation(None, vec![a, b, a, b, a]).unwrap();
    assert_eq!(conv.participants, vec![a, b]);
}

#[test]
fn create_conversation_empty_participants_fails() {
    let mut mgr = ChatManager::new(make_bus());
    let err = mgr.create_conversation(None, vec![]).err().expect("empty participants must return an error");
    assert!(matches!(err, Error::ConversationEmptyParticipants), "expected ConversationEmptyParticipants, got: {err:?}");
    assert!(mgr.list_conversations().is_empty());
}

#[test]
fn send_message_succeeds() {
    let mut mgr = ChatManager::new(make_bus());
    let agent = make_agent();
    let conv = mgr.create_conversation(None, vec![agent]).expect("create must succeed");
    let msg = mgr.send_message(&conv.id, agent, "hello".to_owned()).expect("send_message must succeed for a participant");
    assert_eq!(msg.sender, agent, "sender must match");
    assert_eq!(msg.content, "hello", "content must match");
    assert_eq!(msg.conversation_id, conv.id, "conversation_id must match");
    let messages = mgr.get_messages(&conv.id).expect("get_messages must succeed");
    assert_eq!(messages.len(), 1, "one message must be stored");
    assert_eq!(messages[0].id, msg.id, "stored message id must match");
}

#[test]
fn send_message_unknown_conversation_fails() {
    let mut mgr = ChatManager::new(make_bus());
    let agent = make_agent();
    let unknown_id = ConversationId::new();
    let err = mgr.send_message(&unknown_id, agent, "hi".to_owned()).err().expect("send to unknown conversation must fail");
    match err {
        Error::ConversationNotFound { id } => assert_eq!(id, unknown_id.to_string()),
        other => panic!("expected ConversationNotFound, got: {other:?}"),
    }
}

#[test]
fn send_message_non_participant_fails() {
    let mut mgr = ChatManager::new(make_bus());
    let participant = make_agent();
    let outsider = make_agent();
    let conv = mgr.create_conversation(None, vec![participant]).expect("create must succeed");
    let err = mgr.send_message(&conv.id, outsider, "hi".to_owned()).err().expect("non-participant send must fail");
    match err {
        Error::ConversationNotParticipant { agent, id } => {
            assert_eq!(agent, outsider.to_string());
            assert_eq!(id, conv.id.to_string());
        }
        other => panic!("expected ConversationNotParticipant, got: {other:?}"),
    }
    assert!(mgr.get_messages(&conv.id).unwrap().is_empty());
}

#[test]
fn send_message_publishes_event() {
    let bus = make_bus();
    let mut mgr = ChatManager::new(Arc::clone(&bus));
    let mut rx = bus.subscribe();
    let agent = make_agent();
    let conv = mgr.create_conversation(None, vec![agent]).expect("create must succeed");
    let sent = mgr.send_message(&conv.id, agent, "event check".to_owned()).expect("send must succeed");
    let received = rx.try_recv().expect("event must arrive");
    let Event::NewMessage(event_msg) = received else {
        panic!("expected NewMessage event, got something else");
    };
    assert_eq!(event_msg.id, sent.id, "published message id must match the sent message");
    assert_eq!(event_msg.content, "event check", "published content must match");
}

#[test]
fn conversations_for_agent_filters_correctly() {
    let mut mgr = ChatManager::new(make_bus());
    let agent_a = make_agent();
    let agent_b = make_agent();
    let conv_a = mgr.create_conversation(Some("conv-a".to_owned()), vec![agent_a]).expect("create conv-a must succeed");
    let _conv_b = mgr.create_conversation(Some("conv-b".to_owned()), vec![agent_b]).expect("create conv-b must succeed");
    let results = mgr.conversations_for_agent(&agent_a);
    assert_eq!(results.len(), 1, "agent_a must appear in exactly one conversation");
    assert_eq!(results[0].id, conv_a.id, "agent_a's conversation must be conv-a");
    assert_eq!(mgr.list_conversations().len(), 2);
}

#[test]
fn restore_populates_conversations_and_messages() {
    let mut mgr = ChatManager::new(make_bus());
    let agent = make_agent();
    mgr.create_conversation(Some("before".to_owned()), vec![agent]).unwrap();
    let conv_id = ConversationId::new();
    let msg_id = MessageId::new();
    let conv = Conversation { id: conv_id, name: Some("restored".to_owned()), participants: vec![agent], created_at: Timestamp { secs: 1_700_000_000, nanos: 0 } };
    let msg = ChatMessage {
        id: msg_id,
        conversation_id: conv_id,
        sender: agent,
        content: "restored message".to_owned(),
        timestamp: Timestamp { secs: 1_700_000_000, nanos: 0 },
    };
    mgr.restore(vec![conv], vec![(conv_id, vec![msg])]);
    let found = mgr.get_conversation(&conv_id).expect("conversation must exist");
    assert_eq!(found.id, conv_id);
    assert_eq!(found.name.as_deref(), Some("restored"));
    let msgs = mgr.get_messages(&conv_id).expect("messages must exist");
    assert_eq!(msgs.len(), 1);
    assert_eq!(msgs[0].id, msg_id);
    assert_eq!(msgs[0].content, "restored message");
    assert_eq!(mgr.list_conversations().len(), 1, "restore replaces what was there");
}

#[test]
fn get_messages_returns_ordered_messages() {
    let mut mgr = ChatManager::new(make_bus());
    let agent = make_agent();
    let conv = mgr.create_conversation(None, vec![agent]).expect("create must succeed");
    let first = mgr.send_message(&conv.id, agent, "first".to_owned()).expect("first send must succeed");
    let second = mgr.send_message(&conv.id, agent, "second".to_owned()).expect("second send must succeed");
    let messages = mgr.get_messages(&conv.id).expect("get_messages must succeed");
    assert_eq!(messages.len(), 2, "two messages must be stored");
    assert_eq!(messages[0].id, first.id, "first message must be at index 0");
    assert_eq!(messages[1].id, second.id, "second message must be at index 1");
    assert_eq!(messages[0].content, "first");
    assert_eq!(messages[1].content, "second");
}

#[test]
fn get_messages_unknown_conversation_fails() {
    let mgr = ChatManager::new(make_bus());
    assert!(matches!(mgr.get_messages(&ConversationId::new()), Err(Error::ConversationNotFound { .. })));
}
