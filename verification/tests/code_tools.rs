use trumpet::code_tools::{
    check_file_size, count_lines, file_eligible, is_binary, path_within, read_result, relative_to_root, route_code_tool,
    should_descend, title_case, CodeToolKind, CodeTools, FileEntry, LineCounter, ScanAccumulator,
};
use trumpet::config::CodeToolsConfig;
use trumpet::error::Error;

/// A canonicaliser over a fixed set of existing directories: each exists as
/// itself, and `/ws/link` is a symlink to `/etc`.
fn fake_fs(p: &str) -> Result<String, String> {
    match p {
        "/ws" | "/ws/src" | "/ws/src/main.rs" | "/etc" | "/etc/passwd" => Ok(p.to_owned()),
        "/ws/link" => Ok("/etc".to_owned()),
        "/ws/../etc/passwd" => Ok("/etc/passwd".to_owned()),
        _ => Err("No such file or directory (os error 2)".to_owned()),
    }
}

fn tools() -> CodeTools {
    let config = CodeToolsConfig { workspace_root: Some("/ws".to_owned()), ..CodeToolsConfig::default() };
    CodeTools::new(config, fake_fs).expect("/ws exists")
}

#[test]
fn new_rejects_missing_workspace_root() {
    let err = CodeTools::new(CodeToolsConfig::default(), fake_fs)
        .err()
        .expect("CodeTools::new must fail when workspace_root is None");
    assert!(
        matches!(err, Error::ConfigValidationFailed { .. }),
        "expected ConfigValidationFailed, got: {err:?}"
    );
}

#[test]
fn new_rejects_nonexistent_workspace_root() {
    let err = CodeTools::new(
        CodeToolsConfig {
            workspace_root: Some("/this/does/not/exist/anywhere".to_owned()),
            ..CodeToolsConfig::default()
        },
        fake_fs,
    )
    .err()
    .expect("CodeTools::new must fail for a missing directory");
    assert!(
        matches!(err, Error::ConfigValidationFailed { .. }),
        "expected ConfigValidationFailed, got: {err:?}"
    );
}

#[test]
fn new_reports_why_the_root_was_refused() {
    let config = CodeToolsConfig { workspace_root: Some("/nope".to_owned()), ..CodeToolsConfig::default() };
    match CodeTools::new(config, fake_fs) {
        Err(Error::ConfigValidationFailed { reason }) => assert_eq!(
            reason,
            "code_tools.workspace_root '/nope' is not a valid directory: No such file or directory (os error 2)"
        ),
        _ => panic!("expected ConfigValidationFailed"),
    }
    match CodeTools::new(CodeToolsConfig::default(), fake_fs) {
        Err(Error::ConfigValidationFailed { reason }) => {
            assert_eq!(reason, "code_tools.workspace_root is required")
        }
        _ => panic!("expected ConfigValidationFailed"),
    }
}

#[test]
fn new_keeps_the_configuration() {
    let t = tools();
    assert_eq!(t.config().max_file_size_bytes, 1_048_576);
    assert_eq!(t.config().max_files_per_page, 500);
}

#[test]
fn read_file_accepts_valid_relative_path() {
    assert_eq!(tools().resolve_safe_path("code.read_file", "src/main.rs", fake_fs).unwrap(), "/ws/src/main.rs");
}

#[test]
fn resolve_accepts_the_root_itself() {
    assert_eq!(tools().resolve_safe_path("code.scan_repo", "/ws", fake_fs).unwrap(), "/ws");
}

#[test]
fn read_file_rejects_traversal_attack() {
    match tools().resolve_safe_path("code.read_file", "../etc/passwd", fake_fs) {
        Err(Error::ToolInvocationFailed { name, reason }) => {
            assert_eq!(name, "code.read_file");
            assert_eq!(reason, "path '../etc/passwd' resolves outside the workspace sandbox '/ws'");
        }
        other => panic!("traversal must be rejected, got {other:?}"),
    }
}

#[test]
fn read_file_rejects_absolute_path_outside_root() {
    let r = tools().resolve_safe_path("code.read_file", "/etc/passwd", fake_fs);
    assert!(matches!(r, Err(Error::ToolInvocationFailed { .. })));
}

#[test]
fn read_file_rejects_symlink_escape() {
    let r = tools().resolve_safe_path("code.read_file", "link", fake_fs);
    assert!(matches!(r, Err(Error::ToolInvocationFailed { .. })));
}

#[test]
fn resolve_reports_unresolvable_path() {
    match tools().resolve_safe_path("code.parse_file", "missing.rs", fake_fs) {
        Err(Error::ToolInvocationFailed { name, reason }) => {
            assert_eq!(name, "code.parse_file");
            assert_eq!(reason, "path 'missing.rs' could not be resolved: No such file or directory (os error 2)");
        }
        other => panic!("expected ToolInvocationFailed, got {other:?}"),
    }
}

#[test]
fn path_within_is_component_wise() {
    assert!(path_within("/ws", "/ws"));
    assert!(path_within("/ws", "/ws/a"));
    assert!(!path_within("/ws", "/wsx"));
    assert!(!path_within("/ws", "/w"));
    assert!(path_within("/", "/anything"));
    assert!(path_within("/ws/", "/ws/a"));
}

#[test]
fn count_lines_streaming_matches_count_lines_for_typical_file() {
    let cases = [("", 0usize), ("hello", 1), ("hello\n", 1), ("a\nb\nc\n", 3), ("a\nb\nc", 3)];
    for (content, expected) in cases {
        let mut counter = LineCounter::new();
        let bytes = content.as_bytes();
        let mid = bytes.len() / 2;
        counter.feed(&bytes[..mid]);
        counter.feed(&bytes[mid..]);
        let stream_count = counter.finish();
        assert_eq!(stream_count, expected, "streaming count must match expected for {content:?}");
        assert_eq!(stream_count, count_lines(content), "streaming and in-memory counts must agree for {content:?}");
    }
}

#[test]
fn line_counter_ignores_empty_chunks() {
    let mut counter = LineCounter::new();
    counter.feed(b"a\n");
    counter.feed(b"");
    assert_eq!(counter.finish(), 1);
    counter.feed(b"b");
    assert_eq!(counter.finish(), 2);
}

#[test]
fn title_case_upper_cases_first_character() {
    assert_eq!(title_case("rust"), "Rust");
    assert_eq!(title_case("c"), "C");
    assert_eq!(title_case(""), "");
    assert_eq!(title_case("Go"), "Go");
    assert_eq!(title_case("ßx"), "SSx");
}

#[test]
fn is_binary_looks_at_first_512_bytes() {
    assert!(!is_binary(b"plain text"));
    assert!(is_binary(b"a\0b"));
    let mut late = vec![b'a'; 600];
    late[512] = 0;
    assert!(!is_binary(&late));
    late[511] = 0;
    assert!(is_binary(&late));
}

#[test]
fn scan_rules() {
    let skip = vec!["target".to_owned(), "node_modules".to_owned()];
    assert!(should_descend("src", &skip));
    assert!(!should_descend(".git", &skip));
    assert!(!should_descend("target", &skip));
    assert!(file_eligible(10, 10, b"abc"));
    assert!(!file_eligible(11, 10, b"abc"));
    assert!(!file_eligible(1, 10, b"\0"));
}

fn entry(path: &str) -> FileEntry {
    FileEntry { path: path.to_owned(), language: None, size_bytes: 1, line_count: 1 }
}

#[test]
fn scan_repo_respects_max_files() {
    let mut acc = ScanAccumulator::new(2);
    for p in ["a.rs", "b.rs", "c.rs"] {
        acc.add(entry(p));
    }
    let r = acc.finish();
    assert_eq!(r.files.len(), 2);
    assert_eq!(r.files[0].path, "a.rs");
    assert_eq!(r.files[1].path, "b.rs");
    assert_eq!(r.total_found, 3);
    assert!(r.truncated);
}

#[test]
fn scan_page_not_truncated_at_exact_limit() {
    let mut acc = ScanAccumulator::new(2);
    acc.add(entry("a.rs"));
    acc.add(entry("b.rs"));
    let r = acc.finish();
    assert_eq!(r.total_found, 2);
    assert!(!r.truncated);
}

#[test]
fn check_file_size_reports_both_sizes() {
    assert!(check_file_size("f", 10, 10).is_ok());
    match check_file_size("big.bin", 2048, 1024) {
        Err(Error::InternalUnexpected { reason }) => {
            assert_eq!(reason, "file 'big.bin' exceeds max_file_size_bytes (2048 > 1024)")
        }
        other => panic!("expected InternalUnexpected, got {other:?}"),
    }
}

#[test]
fn read_file_returns_content() {
    let r = read_result("/ws/lib.rs".to_owned(), Some("rust"), b"fn main() {}\n");
    assert_eq!(r.path, "/ws/lib.rs");
    assert_eq!(r.language.as_deref(), Some("Rust"));
    assert_eq!(r.content, "fn main() {}\n");
    assert_eq!(r.line_count, 1);
    let r = read_result("x".to_owned(), None, b"");
    assert_eq!(r.language, None);
    assert_eq!(r.line_count, 0);
}

#[test]
fn dispatch_code_read_file_succeeds() {
    assert_eq!(route_code_tool("code.read_file", Some("a.rs")).unwrap(), CodeToolKind::ReadFile);
    assert_eq!(route_code_tool("code.scan_repo", Some(".")).unwrap(), CodeToolKind::ScanRepo);
    assert_eq!(route_code_tool("code.parse_file", Some("a.rs")).unwrap(), CodeToolKind::ParseFile);
}

#[test]
fn dispatch_unknown_tool_returns_error() {
    assert!(matches!(route_code_tool("code.nope", Some("x")), Err(Error::ToolNotFound { .. })));
}

#[test]
fn dispatch_missing_path_returns_error() {
    match route_code_tool("code.read_file", None) {
        Err(Error::ToolInvocationFailed { name, reason }) => {
            assert_eq!(name, "code.read_file");
            assert_eq!(reason, "missing required 'path' parameter");
        }
        other => panic!("expected ToolInvocationFailed, got {other:?}"),
    }
}

#[test]
fn scan_page_keeps_whole_entries() {
    let mut acc = ScanAccumulator::new(4);
    acc.add(FileEntry { path: "src/lib.rs".to_owned(), language: Some("Rust".to_owned()), size_bytes: 120, line_count: 7 });
    let r = acc.finish();
    assert_eq!(r.files.len(), 1);
    assert_eq!(r.files[0].path, "src/lib.rs");
    assert_eq!(r.files[0].language.as_deref(), Some("Rust"));
    assert_eq!(r.files[0].size_bytes, 120);
    assert_eq!(r.files[0].line_count, 7);
}

#[test]
fn relative_to_root_strips_the_root() {
    assert_eq!(relative_to_root("/ws", "/ws/src/main.rs"), "src/main.rs");
    assert_eq!(relative_to_root("/ws/", "/ws/src/main.rs"), "src/main.rs");
    assert_eq!(relative_to_root("/", "/etc/passwd"), "etc/passwd");
}

#[test]
fn relative_to_root_keeps_paths_outside_the_root() {
    assert_eq!(relative_to_root("/ws", "/wsx/a.rs"), "/wsx/a.rs");
    assert_eq!(relative_to_root("/ws", "/etc/passwd"), "/etc/passwd");
}

#[test]
fn read_result_replaces_invalid_utf8() {
    let r = read_result("x".to_owned(), None, b"a\xffb\n");
    assert_eq!(r.content, "a\u{fffd}b\n");
    assert_eq!(r.line_count, 1);
}
