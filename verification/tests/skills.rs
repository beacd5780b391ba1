use std::sync::Arc;

use trumpet::error::Error;
use trumpet::events::{Event, MessageBus};
use trumpet::ids::{AgentId, ToolId};
use trumpet::model::{ToolInfo, ToolProvider};
use trumpet::skills::{validate_name, SkillRegistry};

fn make_registry() -> SkillRegistry {
    let bus = Arc::new(MessageBus::new(16));
    SkillRegistry::new(bus)
}

fn null_schema() -> String {
    "{}".to_owned()
}

fn reg(registry: &mut SkillRegistry, name: &str, description: &str) -> Result<ToolInfo, Error> {
    registry.register(name, description, null_schema(), null_schema(), ToolProvider::BuiltIn)
}

fn tool(id: ToolId, name: &str, description: &str) -> ToolInfo {
    ToolInfo {
        id,
        name: name.to_owned(),
        description: description.to_owned(),
        input_schema: null_schema(),
        output_schema: null_schema(),
        provider: ToolProvider::BuiltIn,
    }
}

#[test]
fn register_skill_succeeds() {
    let mut registry = make_registry();
    let info = registry
        .register(
            "scan_repo",
            "Scans a repository",
            "{\"type\":\"object\"}".to_owned(),
            null_schema(),
            ToolProvider::BuiltIn,
        )
        .expect("register must succeed for a valid, unique name");
    assert_eq!(info.name, "scan_repo");
    assert_eq!(info.description, "Scans a repository");
    assert_eq!(info.provider, ToolProvider::BuiltIn);
    assert_eq!(info.input_schema, "{\"type\":\"object\"}");
    assert_eq!(info.output_schema, "{}");
}

#[test]
fn register_keeps_agent_provider() {
    let mut registry = make_registry();
    let agent_id = AgentId::new();
    let info = registry
        .register("agent.tool", "d", null_schema(), null_schema(), ToolProvider::Agent { agent_id })
        .unwrap();
    assert_eq!(info.provider, ToolProvider::Agent { agent_id });
}

#[test]
fn skills_register_duplicate_name_fails() {
    let mut registry = make_registry();
    reg(&mut registry, "my_skill", "first").expect("first registration must succeed");
    let err = reg(&mut registry, "my_skill", "second").err().expect("second registration with the same name must fail");
    assert!(
        matches!(err, Error::ToolAlreadyRegistered { ref name } if name == "my_skill"),
        "expected ToolAlreadyRegistered(\"my_skill\"), got: {err:?}"
    );
}

#[test]
fn register_invalid_name_empty_fails() {
    let mut registry = make_registry();
    let err = reg(&mut registry, "", "desc").err().expect("empty name must be rejected");
    assert!(matches!(err, Error::ToolInvalidName { ref name, .. } if name.is_empty()), "got: {err:?}");
}

#[test]
fn register_invalid_name_leading_hyphen_fails() {
    let mut registry = make_registry();
    let err = reg(&mut registry, "-bad", "desc").err().expect("leading hyphen must be rejected");
    assert!(matches!(err, Error::ToolInvalidName { .. }), "got: {err:?}");
}

#[test]
fn register_name_with_dots_succeeds() {
    let mut registry = make_registry();
    let info = reg(&mut registry, "code.scan_repo", "Scans a repo").expect("dotted name must be accepted");
    assert_eq!(info.name, "code.scan_repo", "dotted name must be preserved exactly");
}

#[test]
fn register_name_with_leading_dot_fails() {
    let mut registry = make_registry();
    let err = reg(&mut registry, ".bad", "desc").err().expect("leading dot must be rejected");
    assert!(matches!(err, Error::ToolInvalidName { .. }), "got: {err:?}");
}

#[test]
fn deregister_removes_skill() {
    let mut registry = make_registry();
    let info = reg(&mut registry, "to-remove", "desc").expect("register must succeed");
    registry.deregister(&info.id).expect("deregister must succeed for a known id");
    assert!(registry.list().is_empty(), "list must be empty after deregistering the only skill");
}

#[test]
fn skills_deregister_unknown_fails() {
    let mut registry = make_registry();
    let unknown_id = ToolId::new();
    let err = registry.deregister(&unknown_id).err().expect("deregister with unknown id must fail");
    match err {
        Error::ToolNotFoundById { id } => assert_eq!(id, unknown_id.to_string()),
        other => panic!("expected ToolNotFoundById, got: {other:?}"),
    }
}

#[test]
fn deregister_frees_name_slot_for_reregistration() {
    let mut registry = make_registry();
    let info = reg(&mut registry, "reusable", "desc").expect("first register must succeed");
    registry.deregister(&info.id).expect("deregister must succeed");
    let info2 = reg(&mut registry, "reusable", "desc").expect("re-registration with same name must succeed after deregister");
    assert_ne!(info.id, info2.id, "re-registered skill must have a new id");
}

#[test]
fn skills_register_name_too_long_fails() {
    let mut registry = make_registry();
    let long_name = "a".repeat(65);
    let err = reg(&mut registry, &long_name, "desc").err().expect("name exceeding 64 chars must be rejected");
    assert!(matches!(err, Error::ToolInvalidName { .. }), "got: {err:?}");
}

#[test]
fn skills_register_name_with_trailing_hyphen_fails() {
    let mut registry = make_registry();
    let err = reg(&mut registry, "bad-", "desc").err().expect("trailing hyphen must be rejected");
    assert!(matches!(err, Error::ToolInvalidName { .. }), "got: {err:?}");
}

#[test]
fn register_empty_description_fails() {
    let mut registry = make_registry();
    let err = reg(&mut registry, "valid-name", "").err().expect("empty description must be rejected");
    assert!(matches!(err, Error::ToolInvalidDescription { ref name, .. } if name == "valid-name"), "got: {err:?}");
}

#[test]
fn register_name_with_consecutive_dots_fails() {
    let mut registry = make_registry();
    let err = reg(&mut registry, "code..scan", "desc").err().expect("consecutive dots must be rejected");
    assert!(matches!(err, Error::ToolInvalidName { .. }), "got: {err:?}");
}

#[test]
fn tool_name_rules() {
    assert!(validate_name("a.b-c_d").is_ok());
    assert!(validate_name("bad.").is_err());
    assert!(validate_name("sp ace").is_err());
    assert!(validate_name(&"x".repeat(64)).is_ok());
}

#[test]
fn get_returns_registered_skill() {
    let mut registry = make_registry();
    let info = reg(&mut registry, "lookup-me", "desc").expect("register must succeed");
    let found = registry.get(&info.id).expect("get must return the registered skill");
    assert_eq!(found.id, info.id);
}

#[test]
fn list_returns_all_skills() {
    let mut registry = make_registry();
    reg(&mut registry, "alpha", "desc").expect("register alpha must succeed");
    reg(&mut registry, "beta", "desc").expect("register beta must succeed");
    let mut names: Vec<String> = registry.list().iter().map(|s| s.name.clone()).collect();
    names.sort_unstable();
    assert_eq!(names, vec!["alpha", "beta"], "list must return all registered skills");
}

#[test]
fn skills_find_by_name_works() {
    let mut registry = make_registry();
    reg(&mut registry, "alpha", "desc").expect("register must succeed");
    let beta = reg(&mut registry, "beta", "desc").expect("register must succeed");
    let found = registry.find_by_name("beta").expect("find_by_name must locate a registered skill");
    assert_eq!(found.id, beta.id);
}

#[test]
fn skills_find_by_name_returns_none_for_unknown() {
    let registry = make_registry();
    assert!(registry.find_by_name("ghost").is_none());
}

#[test]
fn restore_populates_skill_registry() {
    let mut registry = make_registry();
    reg(&mut registry, "old-one", "gone after restore").unwrap();
    let id1 = ToolId::new();
    let skills = vec![tool(id1, "skill-one", "first"), tool(ToolId::new(), "skill-two", "second")];
    registry.restore(skills);
    assert_eq!(registry.list().len(), 2, "restore must populate 2 skills");
    assert_eq!(registry.find_by_name("skill-one").unwrap().id, id1, "restored skill id must match");
    assert!(registry.find_by_name("old-one").is_none());
}

#[test]
fn restore_skips_invalid_names_and_later_entries_win() {
    let mut registry = make_registry();
    let a = ToolId::new();
    let b = ToolId::new();
    registry.restore(vec![
        tool(a, "dup", "first"),
        tool(ToolId::new(), "bad name", "skipped"),
        tool(b, "dup", "second"),
    ]);
    assert_eq!(registry.list().len(), 1);
    let found = registry.find_by_name("dup").unwrap();
    assert_eq!(found.id, b);
    assert_eq!(found.description, "second");
    assert!(registry.get(&a).is_none());
}

#[test]
fn restore_publishes_nothing() {
    let bus = Arc::new(MessageBus::new(16));
    let mut registry = SkillRegistry::new(Arc::clone(&bus));
    let mut rx = bus.subscribe();
    registry.restore(vec![tool(ToolId::new(), "quiet", "d")]);
    assert!(rx.try_recv().is_err());
}

#[test]
fn register_publishes_skill_registered_event() {
    let bus = Arc::new(MessageBus::new(16));
    let mut registry = SkillRegistry::new(Arc::clone(&bus));
    let mut rx = bus.subscribe();
    let info = reg(&mut registry, "event-skill", "desc").expect("register must succeed");
    let event = rx.try_recv().expect("bus must deliver the ToolRegistered event");
    let Event::ToolRegistered(received) = event else {
        panic!("expected ToolRegistered event, got something else");
    };
    assert_eq!(received.id, info.id);
    assert_eq!(received.name, "event-skill");
}

#[test]
fn deregister_publishes_skill_deregistered_event() {
    let bus = Arc::new(MessageBus::new(16));
    let mut registry = SkillRegistry::new(Arc::clone(&bus));
    let info = reg(&mut registry, "event-skill", "desc").expect("register must succeed");
    let mut rx = bus.subscribe();
    registry.deregister(&info.id).expect("deregister must succeed");
    let event = rx.try_recv().expect("bus must deliver the ToolDeregistered event");
    let Event::ToolDeregistered(id) = event else {
        panic!("expected ToolDeregistered event, got something else");
    };
    assert_eq!(id, info.id);
}
