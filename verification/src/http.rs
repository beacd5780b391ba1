//! The fields of HTTP API requests: identifiers in paths, optional filters
//! in queries and bodies, and the message a plain-text task submission
//! carries.

use vstd::prelude::*;
use vstd::string::StringExecFns;

use crate::error::Error;
use crate::ids::{uuid_parse, AgentId, ContextId, MessageId, TaskId};
use crate::task_types::{spec_state_name, MessageRole, Part, PartView, TaskFilter, TaskMessage, TaskState};

verus! {

/// The task a request path names.
///
/// # Errors
///
/// [`Error::TaskNotFound`] carrying the raw text when it is not a UUID.
pub fn parse_task_path_id(raw: &str) -> (r: Result<TaskId, Error>)
    ensures
        match uuid_parse(raw@) {
            Some(v) => r matches Ok(t) && t == TaskId(v),
            None => r matches Err(Error::TaskNotFound { id }) && id@ == raw@,
        },
{
    match TaskId::from_text(raw) {
        Ok(t) => Ok(t),
        Err(_) => Err(Error::TaskNotFound { id: raw.to_owned() }),
    }
}

/// The complaint about a field `what` (such as `context_id`) that is not a
/// UUID: `invalid {what} UUID: '{text}'`.
pub open spec fn bad_uuid_field(what: Seq<char>, text: Seq<char>) -> Seq<char> {
    "invalid "@ + what + " UUID: '"@ + text + "'"@
}

/// An optional context field: absent stays absent.
///
/// # Errors
///
/// [`Error::ConfigValidationFailed`] when present and not a UUID.
pub fn parse_optional_context_id(text: Option<&str>) -> (r: Result<Option<ContextId>, Error>)
    ensures
        text is None ==> r == Ok::<Option<ContextId>, Error>(None),
        text matches Some(t) ==> match uuid_parse(t@) {
            Some(v) => r == Ok::<Option<ContextId>, Error>(Some(ContextId(v))),
            None => r matches Err(Error::ConfigValidationFailed { reason })
                && reason@ == bad_uuid_field("context_id"@, t@),
        },
{
    match text {
        None => Ok(None),
        Some(t) => match ContextId::from_text(t) {
            Ok(c) => Ok(Some(c)),
            Err(_) => {
                let mut s = String::from_str("invalid ");
                s.append("context_id");
                s.append(" UUID: '");
                s.append(t);
                s.append("'");
                Err(Error::ConfigValidationFailed { reason: s })
            },
        },
    }
}

/// An optional assignee field: absent stays absent.
///
/// # Errors
///
/// [`Error::ConfigValidationFailed`] when present and not a UUID.
pub fn parse_optional_assignee(text: Option<&str>) -> (r: Result<Option<AgentId>, Error>)
    ensures
        text is None ==> r == Ok::<Option<AgentId>, Error>(None),
        text matches Some(t) ==> match uuid_parse(t@) {
            Some(v) => r == Ok::<Option<AgentId>, Error>(Some(AgentId(v))),
            None => r matches Err(Error::ConfigValidationFailed { reason })
                && reason@ == bad_uuid_field("assignee"@, t@),
        },
{
    match text {
        None => Ok(None),
        Some(t) => match AgentId::from_text(t) {
            Ok(a) => Ok(Some(a)),
            Err(_) => {
                let mut s = String::from_str("invalid ");
                s.append("assignee");
                s.append(" UUID: '");
                s.append(t);
                s.append("'");
                Err(Error::ConfigValidationFailed { reason: s })
            },
        },
    }
}

/// An optional state field: absent stays absent.
///
/// # Errors
///
/// [`Error::ConfigValidationFailed`] (`'{text}' is not a valid task state`)
/// when present and not a snake-case state name.
pub fn parse_optional_state(text: Option<&str>) -> (r: Result<Option<TaskState>, Error>)
    ensures
        match text {
            None => r matches Ok(x) && x is None,
            Some(t) => match r {
                Ok(x) => x matches Some(s) && spec_state_name(s) == t@,
                Err(e) => (forall|s: TaskState| spec_state_name(s) != t@) && (e matches Error::ConfigValidationFailed {
                    reason,
                } && reason@ == "'"@ + t@ + "' is not a valid task state"@),
            },
        },
{
    match text {
        None => Ok(None),
        Some(t) => match TaskState::parse(t) {
            Some(s) => Ok(Some(s)),
            None => {
                let mut m = String::from_str("'");
                m.append(t);
                m.append("' is not a valid task state");
                Err(Error::ConfigValidationFailed { reason: m })
            },
        },
    }
}

/// The filter of a task listing query; the fields are checked in order:
/// context, state, assignee.
///
/// # Errors
///
/// [`Error::ConfigValidationFailed`] for the first field that is present
/// and malformed.
pub fn task_filter_from_query(context_id: Option<&str>, state: Option<&str>, assignee: Option<&str>) -> (r: Result<
    TaskFilter,
    Error,
>)
    ensures
        match r {
            Ok(f) => {
                &&& (context_id matches Some(t) ==> uuid_parse(t@) is Some && f.context_id == Some(
                    ContextId(uuid_parse(t@).unwrap()),
                ))
                &&& (context_id is None ==> f.context_id is None)
                &&& (state matches Some(t) ==> f.state matches Some(s) && spec_state_name(s) == t@)
                &&& (state is None ==> f.state is None)
                &&& (assignee matches Some(t) ==> uuid_parse(t@) is Some && f.assignee == Some(
                    AgentId(uuid_parse(t@).unwrap()),
                ))
                &&& (assignee is None ==> f.assignee is None)
            },
            Err(e) => e is ConfigValidationFailed && {
                ||| context_id matches Some(t) && uuid_parse(t@) is None
                ||| state matches Some(t) && forall|s: TaskState| spec_state_name(s) != t@
                ||| assignee matches Some(t) && uuid_parse(t@) is None
            },
        },
{
    let c = match parse_optional_context_id(context_id) {
        Ok(c) => c,
        Err(e) => return Err(e),
    };
    let s = match parse_optional_state(state) {
        Ok(s) => s,
        Err(e) => return Err(e),
    };
    let a = match parse_optional_assignee(assignee) {
        Ok(a) => a,
        Err(e) => return Err(e),
    };
    Ok(TaskFilter { context_id: c, state: s, assignee: a })
}

/// The message of a plain-text task submission: from the user, one text
/// part, no metadata, a fresh identifier.
pub fn user_text_message(text: String) -> (r: TaskMessage)
    ensures
        r.role == MessageRole::User,
        r.parts@.len() == 1,
        r.parts@[0]@ == PartView::Text(text@),
        r.metadata is None,
{
    let mut parts: Vec<Part> = Vec::new();
    parts.push(Part::Text { text });
    TaskMessage { id: MessageId::new(), role: MessageRole::User, parts, metadata: None }
}

} // verus!
