use trumpet::ids::{ArtifactId, ContextId, MessageId, TaskId};
use trumpet::model::Timestamp;
use trumpet::proto::{
    core_message_to_proto, core_part_to_proto, core_state_to_proto, core_task_to_proto, proto_message_to_core,
    proto_part_to_core, proto_state_to_core, timestamp_to_proto, ConvertError, ProtoMessage, ProtoPart,
    ProtoPartContent, ProtoTimestamp,
};
use trumpet::task_types::{Artifact, MessageRole, Part, Task, TaskMessage, TaskState, TaskStatus};
use trumpet::ids::PushNotificationId;
use trumpet::proto::{parse_context_id, parse_push_config_id, parse_task_id, require_message};
use trumpet::proto::push_config_to_proto;
use trumpet::push::{PushNotificationAuth, PushNotificationConfig};

fn text_of(p: &Part) -> &str {
    match p {
        Part::Text { text } => text,
        other => panic!("expected a text part, got {other:?}"),
    }
}

#[test]
fn state_round_trip() {
    let states = [
        TaskState::Submitted,
        TaskState::Working,
        TaskState::Completed,
        TaskState::Failed,
        TaskState::Canceled,
        TaskState::InputRequired,
        TaskState::Rejected,
        TaskState::AuthRequired,
    ];
    for (i, state) in states.into_iter().enumerate() {
        let proto_val = core_state_to_proto(state);
        assert_eq!(proto_val, i as i32 + 1);
        let back = proto_state_to_core(proto_val).expect("round-trip must succeed");
        assert_eq!(back, state, "state must survive round-trip");
    }
}

#[test]
fn unknown_states_are_rejected() {
    for v in [0, 9, -1] {
        match proto_state_to_core(v) {
            Err(ConvertError::InvalidArgument(m)) => assert_eq!(m, format!("unknown task state: {v}")),
            other => panic!("expected InvalidArgument, got {other:?}"),
        }
    }
}

#[test]
fn part_text_round_trip() {
    let core_part = Part::Text { text: "hello".to_owned() };
    let proto_part = core_part_to_proto(&core_part);
    let back = proto_part_to_core(&proto_part).expect("round-trip must succeed");
    assert_eq!(text_of(&back), "hello", "text part must survive round-trip");
}

#[test]
fn url_and_data_parts_round_trip() {
    let url = proto_part_to_core(&core_part_to_proto(&Part::Url { url: "https://x/".to_owned() })).unwrap();
    assert!(matches!(url, Part::Url { ref url } if url == "https://x/"));
    let data = proto_part_to_core(&core_part_to_proto(&Part::Data { data: "{\"a\":1}".to_owned() })).unwrap();
    assert!(matches!(data, Part::Data { ref data } if data == "{\"a\":1}"));
}

#[test]
fn raw_and_empty_parts_are_refused() {
    let raw = ProtoPart {
        content: Some(ProtoPartContent::Raw(vec![1, 2, 3])),
        metadata: None,
        filename: String::new(),
        media_type: String::new(),
    };
    match proto_part_to_core(&raw) {
        Err(ConvertError::Unimplemented(m)) => assert_eq!(m, "binary (raw) parts are not yet supported (3 bytes)"),
        other => panic!("expected Unimplemented, got {other:?}"),
    }
    let empty = ProtoPart { content: None, metadata: None, filename: String::new(), media_type: String::new() };
    match proto_part_to_core(&empty) {
        Err(ConvertError::InvalidArgument(m)) => assert_eq!(m, "part has no content"),
        other => panic!("expected InvalidArgument, got {other:?}"),
    }
}

#[test]
fn message_converts_to_proto() {
    let msg = TaskMessage {
        id: MessageId::new(),
        role: MessageRole::User,
        parts: vec![Part::Text { text: "test".to_owned() }],
        metadata: None,
    };
    let proto_msg = core_message_to_proto(&msg);
    assert_eq!(proto_msg.message_id, msg.id.to_string());
    assert_eq!(proto_msg.role, 1);
    assert_eq!(proto_msg.parts.len(), 1);
    assert!(proto_msg.context_id.is_empty());
}

#[test]
fn message_round_trips_through_proto() {
    let msg = TaskMessage {
        id: MessageId::new(),
        role: MessageRole::Agent,
        parts: vec![Part::Text { text: "a".to_owned() }, Part::Url { url: "u".to_owned() }],
        metadata: Some("{}".to_owned()),
    };
    let back = proto_message_to_core(&core_message_to_proto(&msg)).unwrap();
    assert_eq!(back.id, msg.id);
    assert_eq!(back.role, MessageRole::Agent);
    assert_eq!(back.parts.len(), 2);
    assert_eq!(text_of(&back.parts[0]), "a");
    assert_eq!(back.metadata.as_deref(), Some("{}"));
}

fn wire_message(id: &str, role: i32, parts: Vec<ProtoPart>) -> ProtoMessage {
    ProtoMessage {
        message_id: id.to_owned(),
        context_id: String::new(),
        task_id: String::new(),
        role,
        parts,
        metadata: None,
        extensions: vec![],
        reference_task_ids: vec![],
    }
}

#[test]
fn wire_message_checks() {
    assert!(matches!(proto_message_to_core(&wire_message("", 0, vec![])), Err(ConvertError::InvalidArgument(_))));
    assert!(matches!(proto_message_to_core(&wire_message("not-a-uuid", 1, vec![])), Err(ConvertError::InvalidArgument(_))));
    let fresh = proto_message_to_core(&wire_message("", 1, vec![])).unwrap();
    assert_eq!(fresh.role, MessageRole::User);
    let id = MessageId::new();
    let kept = proto_message_to_core(&wire_message(&id.to_string(), 2, vec![])).unwrap();
    assert_eq!(kept.id, id);
}

#[test]
fn task_converts_to_proto() {
    let task = Task {
        id: TaskId::new(),
        context_id: ContextId::new(),
        status: TaskStatus { state: TaskState::Submitted, message: None, timestamp: Timestamp { secs: 5, nanos: 7 } },
        artifacts: vec![Artifact {
            id: ArtifactId::new(),
            name: Some("out".to_owned()),
            description: None,
            parts: vec![],
            metadata: None,
        }],
        history: vec![],
        metadata: None,
        assignee: None,
        creator: None,
    };
    let proto_task = core_task_to_proto(&task);
    assert_eq!(proto_task.id, task.id.to_string());
    assert_eq!(proto_task.context_id, task.context_id.to_string());
    let status = proto_task.status.expect("status is always set");
    assert_eq!(status.state, 1);
    assert_eq!(status.timestamp, Some(ProtoTimestamp { seconds: 5, nanos: 7 }));
    assert_eq!(proto_task.artifacts.len(), 1);
    assert_eq!(proto_task.artifacts[0].artifact_id, task.artifacts[0].id.to_string());
}

#[test]
fn timestamp_keeps_fields() {
    assert_eq!(timestamp_to_proto(Timestamp { secs: -3, nanos: 999 }), ProtoTimestamp { seconds: -3, nanos: 999 });
}

#[test]
fn request_fields() {
    assert!(parse_context_id("").unwrap().is_none());
    let c = ContextId::new();
    assert_eq!(parse_context_id(&c.to_string()).unwrap(), Some(c));
    assert!(matches!(parse_context_id("x"), Err(ConvertError::InvalidArgument(m)) if m == "invalid context_id"));
    assert!(matches!(parse_task_id("x"), Err(ConvertError::InvalidArgument(m)) if m == "invalid task id"));
    let p = PushNotificationId::new();
    assert_eq!(parse_push_config_id(&p.to_string()).unwrap(), p);
    assert!(matches!(parse_push_config_id(""), Err(ConvertError::InvalidArgument(m)) if m == "invalid push notification config id"));
    assert!(matches!(require_message(None), Err(ConvertError::InvalidArgument(m)) if m == "message is required"));
}

#[test]
fn push_config_converts_to_proto() {
    let cfg = PushNotificationConfig {
        id: PushNotificationId::new(),
        task_id: TaskId::new(),
        url: "https://h/".to_owned(),
        token: "t".to_owned(),
        authentication: Some(PushNotificationAuth { scheme: "Basic".to_owned(), credentials: "c".to_owned() }),
    };
    let p = push_config_to_proto(&cfg);
    assert_eq!(p.id, cfg.id.to_string());
    assert_eq!(p.task_id, cfg.task_id.to_string());
    assert_eq!(p.url, "https://h/");
    assert_eq!(p.token, "t");
    assert!(p.tenant.is_empty());
    let a = p.authentication.unwrap();
    assert_eq!((a.scheme.as_str(), a.credentials.as_str()), ("Basic", "c"));
}
