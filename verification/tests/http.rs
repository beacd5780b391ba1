use trumpet::error::Error;
use trumpet::http::{
    parse_optional_assignee, parse_optional_context_id, parse_optional_state, parse_task_path_id,
    task_filter_from_query, user_text_message,
};
use trumpet::ids::{AgentId, ContextId, TaskId};
use trumpet::task_types::{MessageRole, Part, TaskState};

fn reason(e: Error) -> String {
    match e {
        Error::ConfigValidationFailed { reason } => reason,
        other => panic!("expected ConfigValidationFailed, got {other:?}"),
    }
}

#[test]
fn task_path_id_parses_or_is_not_found() {
    let t = TaskId::new();
    assert_eq!(parse_task_path_id(&t.to_string()).unwrap(), t);
    match parse_task_path_id("nope") {
        Err(Error::TaskNotFound { id }) => assert_eq!(id, "nope"),
        other => panic!("expected TaskNotFound, got {other:?}"),
    }
}

#[test]
fn optional_fields() {
    assert_eq!(parse_optional_context_id(None).unwrap(), None);
    let c = ContextId::new();
    assert_eq!(parse_optional_context_id(Some(&c.to_string())).unwrap(), Some(c));
    assert_eq!(reason(parse_optional_context_id(Some("x")).unwrap_err()), "invalid context_id UUID: 'x'");
    let a = AgentId::new();
    assert_eq!(parse_optional_assignee(Some(&a.to_string())).unwrap(), Some(a));
    assert_eq!(reason(parse_optional_assignee(Some("y")).unwrap_err()), "invalid assignee UUID: 'y'");
    assert_eq!(parse_optional_state(Some("input_required")).unwrap(), Some(TaskState::InputRequired));
    assert_eq!(reason(parse_optional_state(Some("done")).unwrap_err()), "'done' is not a valid task state");
}

#[test]
fn filter_fields_are_checked_in_order() {
    let f = task_filter_from_query(None, Some("working"), None).unwrap();
    assert_eq!(f.state, Some(TaskState::Working));
    assert_eq!(f.context_id, None);
    assert_eq!(f.assignee, None);
    let e = task_filter_from_query(Some("bad"), Some("also bad"), Some("bad too")).unwrap_err();
    assert_eq!(reason(e), "invalid context_id UUID: 'bad'");
    let e = task_filter_from_query(None, Some("also bad"), Some("bad too")).unwrap_err();
    assert_eq!(reason(e), "'also bad' is not a valid task state");
}

#[test]
fn submitted_text_becomes_a_user_message() {
    let m = user_text_message("do it".to_owned());
    assert_eq!(m.role, MessageRole::User);
    assert!(m.metadata.is_none());
    assert!(matches!(&m.parts[..], [Part::Text { text }] if text == "do it"));
}
