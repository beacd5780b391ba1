use std::sync::Arc;

use trumpet::error::Error;
use trumpet::events::{Event, MessageBus};
use trumpet::ids::AgentId;
use trumpet::model::{AgentCapabilities, AgentStatus};
use trumpet::registry::{validate_name, AgentRegistry};

fn make_registry() -> AgentRegistry {
    let bus = Arc::new(MessageBus::new(16));
    AgentRegistry::new(bus)
}

#[test]
fn register_agent_succeeds() {
    let mut registry = make_registry();
    let info = registry.register("coder-1", None).expect("register must succeed for a valid, unique name");
    assert_eq!(info.name, "coder-1", "returned AgentInfo must carry the registered name");
    assert_eq!(info.status, AgentStatus::Connected, "newly registered agent must start as Connected");
    assert!(info.capabilities.is_none());
}

#[test]
fn register_keeps_declared_capabilities() {
    let mut registry = make_registry();
    let caps = AgentCapabilities { skill_tags: vec!["review".to_owned(), "lint".to_owned()] };
    let info = registry.register("linter", Some(caps)).unwrap();
    assert_eq!(info.capabilities.unwrap().skill_tags, vec!["review".to_owned(), "lint".to_owned()]);
}

#[test]
fn registry_register_duplicate_name_fails() {
    let mut registry = make_registry();
    registry.register("worker", None).expect("first registration must succeed");
    let err = registry.register("worker", None).err().expect("second registration with the same name must fail");
    assert!(
        matches!(err, Error::AgentAlreadyRegistered { ref name } if name == "worker"),
        "expected AgentAlreadyRegistered(\"worker\"), got: {err:?}"
    );
    assert_eq!(registry.list().len(), 1);
}

#[test]
fn register_invalid_name_fails_empty_string() {
    let mut registry = make_registry();
    let err = registry.register("", None).err().expect("empty name must be rejected");
    assert!(
        matches!(err, Error::AgentInvalidName { ref name, .. } if name.is_empty()),
        "expected AgentInvalidName for empty string, got: {err:?}"
    );
}

#[test]
fn registry_register_name_too_long_fails() {
    let mut registry = make_registry();
    let long_name = "a".repeat(65);
    let err = registry.register(&long_name, None).err().expect("name exceeding 64 chars must be rejected");
    assert!(matches!(err, Error::AgentInvalidName { .. }), "expected AgentInvalidName for overlong name, got: {err:?}");
    assert!(registry.register(&"a".repeat(64), None).is_ok());
}

#[test]
fn register_name_with_leading_hyphen_fails() {
    let mut registry = make_registry();
    let err = registry.register("-bad", None).err().expect("leading hyphen must be rejected");
    assert!(matches!(err, Error::AgentInvalidName { .. }), "expected AgentInvalidName for leading hyphen, got: {err:?}");
}

#[test]
fn registry_register_name_with_trailing_hyphen_fails() {
    let mut registry = make_registry();
    let err = registry.register("bad-", None).err().expect("trailing hyphen must be rejected");
    assert!(matches!(err, Error::AgentInvalidName { .. }), "expected AgentInvalidName for trailing hyphen, got: {err:?}");
}

#[test]
fn register_name_with_invalid_char_fails() {
    let mut registry = make_registry();
    let err = registry.register("bad name", None).err().expect("space in name must be rejected");
    assert!(matches!(err, Error::AgentInvalidName { .. }), "expected AgentInvalidName for space in name, got: {err:?}");
}

#[test]
fn validate_name_reasons() {
    let reason = |n: &str| match validate_name(n) {
        Err(Error::AgentInvalidName { reason, .. }) => reason,
        _ => String::new(),
    };
    assert_eq!(reason(""), "name must not be empty");
    assert_eq!(reason(&"x".repeat(65)), "name must be 64 characters or fewer");
    assert_eq!(reason("-a"), "name must not start or end with a hyphen");
    assert_eq!(reason("a.b"), "name may only contain ASCII alphanumeric characters, hyphens, and underscores");
    assert_eq!(reason("é"), "name may only contain ASCII alphanumeric characters, hyphens, and underscores");
    assert!(validate_name("Agent_9-x").is_ok());
}

#[test]
fn deregister_removes_agent() {
    let mut registry = make_registry();
    let info = registry.register("to-remove", None).expect("register must succeed");
    let removed = registry.deregister(&info.id).expect("deregister must succeed for a known id");
    assert_eq!(removed.id, info.id);
    assert!(registry.list().is_empty(), "list must be empty after deregistering the only agent");
    assert!(registry.get(&info.id).is_none());
}

#[test]
fn registry_deregister_unknown_fails() {
    let mut registry = make_registry();
    let unknown_id = AgentId::new();
    let err = registry.deregister(&unknown_id).err().expect("deregister with unknown id must fail");
    match err {
        Error::AgentNotFound { name } => assert_eq!(name, unknown_id.to_string()),
        other => panic!("expected AgentNotFound, got: {other:?}"),
    }
}

#[test]
fn deregister_frees_the_name() {
    let mut registry = make_registry();
    let first = registry.register("again", None).unwrap();
    registry.deregister(&first.id).unwrap();
    let second = registry.register("again", None).expect("name is free after deregistration");
    assert_ne!(first.id, second.id);
}

#[test]
fn get_returns_registered_agent() {
    let mut registry = make_registry();
    let info = registry.register("lookup-me", None).expect("register must succeed");
    let found = registry.get(&info.id).expect("get must return the registered agent");
    assert_eq!(found.id, info.id, "get must return the agent with the requested id");
}

#[test]
fn list_keeps_registration_order() {
    let mut registry = make_registry();
    registry.register("one", None).unwrap();
    registry.register("two", None).unwrap();
    registry.register("three", None).unwrap();
    let names: Vec<&str> = registry.list().iter().map(|a| a.name.as_str()).collect();
    assert_eq!(names, vec!["one", "two", "three"]);
}

#[test]
fn registry_find_by_name_works() {
    let mut registry = make_registry();
    registry.register("alpha", None).expect("register must succeed");
    let beta = registry.register("beta", None).expect("register must succeed");
    let found = registry.find_by_name("beta").expect("find_by_name must locate a registered agent");
    assert_eq!(found.id, beta.id, "find_by_name must return the correct agent");
}

#[test]
fn registry_find_by_name_returns_none_for_unknown() {
    let registry = make_registry();
    assert!(registry.find_by_name("ghost").is_none(), "find_by_name must return None when name is not registered");
}

#[test]
fn register_publishes_agent_registered_event() {
    let bus = Arc::new(MessageBus::new(16));
    let mut registry = AgentRegistry::new(Arc::clone(&bus));
    let mut rx = bus.subscribe();
    let info = registry.register("event-agent", None).expect("register must succeed");
    let event = rx.try_recv().expect("bus must deliver the AgentRegistered event");
    let Event::AgentRegistered(received) = event else {
        panic!("expected AgentRegistered event, got something else");
    };
    assert_eq!(received.id, info.id, "event must carry the id of the registered agent");
    assert_eq!(received.name, "event-agent", "event must carry the name of the registered agent");
}

#[test]
fn deregister_publishes_agent_deregistered_event() {
    let bus = Arc::new(MessageBus::new(16));
    let mut registry = AgentRegistry::new(Arc::clone(&bus));
    let info = registry.register("to-deregister", None).expect("register must succeed");
    let mut rx = bus.subscribe();
    registry.deregister(&info.id).expect("deregister must succeed");
    let event = rx.try_recv().expect("bus must deliver the AgentDeregistered event");
    let Event::AgentDeregistered(deregistered_id) = event else {
        panic!("expected AgentDeregistered event, got something else");
    };
    assert_eq!(deregistered_id, info.id, "event must carry the id of the deregistered agent");
}

#[test]
fn failed_register_publishes_nothing() {
    let bus = Arc::new(MessageBus::new(16));
    let mut registry = AgentRegistry::new(Arc::clone(&bus));
    let mut rx = bus.subscribe();
    assert!(registry.register("bad name", None).is_err());
    assert!(rx.try_recv().is_err());
}
