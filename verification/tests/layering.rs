use toml::Value;
use trumpet::layering::{merge_document, merge_tables, TomlNode};

fn get<'a>(entries: &'a [(String, TomlNode)], key: &str) -> Option<&'a TomlNode> {
    entries.iter().find(|(k, _)| k == key).map(|(_, v)| v)
}

fn int_at(entries: &[(String, TomlNode)], key: &str) -> Option<i64> {
    match get(entries, key) {
        Some(TomlNode::Value(Value::Integer(i))) => Some(*i),
        _ => None,
    }
}

fn leaf(key: &str, v: Value) -> (String, TomlNode) {
    (key.to_owned(), TomlNode::Value(v))
}

fn table(key: &str, entries: Vec<(String, TomlNode)>) -> (String, TomlNode) {
    (key.to_owned(), TomlNode::Table(entries))
}

#[test]
fn merge_tables_scalar_override() {
    let mut base = vec![leaf("a", Value::Integer(1)), leaf("b", Value::Integer(2))];
    let overlay = vec![leaf("b", Value::Integer(99))];
    merge_tables(&mut base, overlay);
    assert_eq!(int_at(&base, "a"), Some(1));
    assert_eq!(int_at(&base, "b"), Some(99));
    assert_eq!(base.len(), 2);
}

#[test]
fn merge_tables_nested_partial_override() {
    let mut base = vec![table(
        "server",
        vec![leaf("http_port", Value::Integer(7600)), leaf("grpc_port", Value::Integer(7601))],
    )];
    let overlay = vec![table("server", vec![leaf("http_port", Value::Integer(8080))])];
    merge_tables(&mut base, overlay);
    let Some(TomlNode::Table(server)) = get(&base, "server") else { panic!("server must stay a table") };
    assert_eq!(int_at(server, "http_port"), Some(8080));
    assert_eq!(int_at(server, "grpc_port"), Some(7601));
}

#[test]
fn upper_scalar_replaces_lower_table_and_back() {
    let mut base = vec![table("x", vec![leaf("y", Value::Integer(1))]), leaf("z", Value::Integer(3))];
    let overlay = vec![leaf("x", Value::Boolean(true)), table("z", vec![leaf("w", Value::Integer(4))])];
    merge_tables(&mut base, overlay);
    assert!(matches!(get(&base, "x"), Some(TomlNode::Value(Value::Boolean(true)))));
    let Some(TomlNode::Table(z)) = get(&base, "z") else { panic!("z must now be a table") };
    assert_eq!(int_at(z, "w"), Some(4));
}

#[test]
fn new_keys_are_added_and_arrays_replaced() {
    let mut base = vec![leaf("list", Value::Array(vec![Value::Integer(1), Value::Integer(2)]))];
    let overlay = vec![leaf("list", Value::Array(vec![Value::Integer(3)])), leaf("new", Value::String("n".to_owned()))];
    merge_tables(&mut base, overlay);
    assert!(matches!(get(&base, "list"), Some(TomlNode::Value(Value::Array(a))) if a.len() == 1));
    assert!(matches!(get(&base, "new"), Some(TomlNode::Value(Value::String(s))) if s == "n"));
    assert_eq!(base.len(), 2);
}

#[test]
fn empty_overlay_changes_nothing() {
    let mut base = vec![leaf("a", Value::Integer(1))];
    merge_tables(&mut base, vec![]);
    assert_eq!(int_at(&base, "a"), Some(1));
    let mut empty: Vec<(String, TomlNode)> = vec![];
    merge_tables(&mut empty, vec![leaf("a", Value::Integer(5))]);
    assert_eq!(int_at(&empty, "a"), Some(5));
}

#[test]
fn merge_document_layers_files() {
    let mut base: Vec<(String, TomlNode)> = Vec::new();
    merge_document(&mut base, "name = 1\n[server]\nhttp_port = 7600\ngrpc_port = 7601\n").unwrap();
    merge_document(&mut base, "[server]\nhttp_port = 8080\n").unwrap();
    assert_eq!(int_at(&base, "name"), Some(1));
    let Some(TomlNode::Table(server)) = get(&base, "server") else { panic!("server must stay a table") };
    assert_eq!(int_at(server, "http_port"), Some(8080));
    assert_eq!(int_at(server, "grpc_port"), Some(7601));
}

#[test]
fn merge_document_refuses_invalid_toml() {
    let mut base = vec![leaf("a", Value::Integer(1))];
    let err = merge_document(&mut base, "a = ").unwrap_err();
    assert!(!err.is_empty());
    assert_eq!(base.len(), 1);
    assert_eq!(int_at(&base, "a"), Some(1));
}
