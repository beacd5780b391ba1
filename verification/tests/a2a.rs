use std::sync::Arc;

use trumpet::a2a::{extended_agent_card, paginate_tasks, AgentCardCapabilities};
use trumpet::events::MessageBus;
use trumpet::ids::{MessageId, ToolId};
use trumpet::model::{ToolInfo, ToolProvider};
use trumpet::task_manager::TaskManager;
use trumpet::task_types::{MessageRole, Part, Task, TaskMessage};

fn tasks(n: usize) -> Vec<Task> {
    let mut mgr = TaskManager::new(Arc::new(MessageBus::new(64)));
    (0..n)
        .map(|_| {
            let m = TaskMessage {
                id: MessageId::new(),
                role: MessageRole::User,
                parts: vec![Part::Text { text: "x".to_owned() }],
                metadata: None,
            };
            mgr.create_task(m, None, None, None, None).unwrap()
        })
        .collect()
}

#[test]
fn list_tasks_returns_empty_initially() {
    let none: Vec<&Task> = vec![];
    let page = paginate_tasks(&none, None, "");
    assert!(page.tasks.is_empty());
    assert_eq!(page.next_page_token, "");
    assert_eq!(page.page_size, 0);
    assert_eq!(page.total_size, 0);
}

#[test]
fn list_tasks_paginates_with_cursor() {
    let owned = tasks(5);
    let refs: Vec<&Task> = owned.iter().collect();
    let mut expected: Vec<String> = owned.iter().map(|t| t.id.to_string()).collect();
    expected.sort();
    let mut seen: Vec<String> = Vec::new();
    let mut token = String::new();
    let mut pages = 0;
    let mut sizes: Vec<usize> = Vec::new();
    loop {
        let page = paginate_tasks(&refs, Some(2), &token);
        pages += 1;
        sizes.push(page.tasks.len());
        assert_eq!(page.total_size, 5);
        assert_eq!(page.page_size as usize, page.tasks.len());
        seen.extend(page.tasks.iter().map(|t| t.id.to_string()));
        if page.next_page_token.is_empty() {
            break;
        }
        assert_eq!(&page.next_page_token, seen.last().unwrap());
        token = page.next_page_token;
    }
    assert_eq!(pages, 3);
    assert_eq!(sizes, vec![2, 2, 1], "pages of 2, 2 and 1 items");
    assert_eq!(seen, expected, "every task exactly once, in id order");
}

#[test]
fn page_size_is_clamped() {
    let owned = tasks(3);
    let refs: Vec<&Task> = owned.iter().collect();
    assert_eq!(paginate_tasks(&refs, Some(0), "").tasks.len(), 1);
    assert_eq!(paginate_tasks(&refs, Some(-5), "").tasks.len(), 1);
    assert_eq!(paginate_tasks(&refs, Some(1000), "").tasks.len(), 3);
    assert_eq!(paginate_tasks(&refs, None, "").tasks.len(), 3);
}

#[test]
fn cursor_past_the_end_gives_empty_page() {
    let owned = tasks(2);
    let refs: Vec<&Task> = owned.iter().collect();
    let page = paginate_tasks(&refs, None, "ffffffff-ffff-ffff-ffff-ffffffffffff");
    assert!(page.tasks.is_empty());
    assert_eq!(page.next_page_token, "");
    assert_eq!(page.total_size, 2);
}

#[test]
fn get_extended_agent_card_returns_card() {
    let tool = ToolInfo {
        id: ToolId::new(),
        name: "code.scan_repo".to_owned(),
        description: "Scan".to_owned(),
        input_schema: "{}".to_owned(),
        output_schema: "{}".to_owned(),
        provider: ToolProvider::BuiltIn,
    };
    let card = extended_agent_card("127.0.0.1", 7601, "0.1.0", &vec![&tool]);
    assert_eq!(card.name, "trumpet");
    assert_eq!(card.version, "0.1.0");
    assert_eq!(card.supported_interfaces.len(), 1);
    assert_eq!(card.supported_interfaces[0].url, "grpc://127.0.0.1:7601");
    assert_eq!(card.supported_interfaces[0].protocol_binding, "GRPC");
    assert_eq!(
        card.capabilities,
        Some(AgentCardCapabilities { streaming: Some(true), push_notifications: Some(true), extended_agent_card: Some(true) })
    );
    assert_eq!(card.skills.len(), 1);
    assert_eq!(card.skills[0].id, tool.id.to_string());
    assert_eq!(card.skills[0].name, "code.scan_repo");
    assert_eq!(card.default_input_modes, vec!["text/plain".to_owned()]);
}
