use cli_adapter::adapter::LineType;
use cli_adapter::{CodexAdapter, CommandOptions};

#[test]
fn exec_args_include_exec_and_full_auto() {
    let args = CodexAdapter::exec_args("hello", CommandOptions::default());
    assert_eq!(
        args,
        vec!["exec", "--dangerously-bypass-approvals-and-sandbox", "hello"]
    );
}

#[test]
fn readonly_args_use_read_only_sandbox() {
    let args = CodexAdapter::readonly_args("hello", CommandOptions::default());
    assert_eq!(
        args,
        vec![
            "exec",
            "--dangerously-bypass-approvals-and-sandbox",
            "--json",
            "hello"
        ]
    );
}

#[test]
fn exec_args_include_skip_git_repo_check() {
    let args = CodexAdapter::exec_args(
        "hello",
        CommandOptions {
            skip_git_repo_check: true,
        },
    );
    assert_eq!(
        args,
        vec![
            "exec",
            "--dangerously-bypass-approvals-and-sandbox",
            "--skip-git-repo-check",
            "hello"
        ]
    );
}

#[test]
fn readonly_args_include_skip_git_repo_check() {
    let args = CodexAdapter::readonly_args(
        "hello",
        CommandOptions {
            skip_git_repo_check: true,
        },
    );
    assert_eq!(
        args,
        vec![
            "exec",
            "--dangerously-bypass-approvals-and-sandbox",
            "--json",
            "--skip-git-repo-check",
            "hello"
        ]
    );
}

#[test]
fn parse_output_line_extracts_agent_message_text() {
    let adapter = CodexAdapter::new(None);
    let line = r#"{"type":"item.completed","item":{"type":"agent_message","text":"Hello world"}}"#;
    let parsed = adapter.parse_output_line(line);
    assert_eq!(parsed.content, "Hello world");
    assert_eq!(parsed.line_type, LineType::Json);
    assert!(parsed.is_assistant);
}

#[test]
fn parse_output_line_skips_control_events() {
    let adapter = CodexAdapter::new(None);
    // All known control/lifecycle events should be skipped
    for event in [
        "thread.started",
        "turn.started",
        "turn.completed",
        "item.delta",
        "item.started",
        "item.updated",
        "session.started",
        "session.completed",
    ] {
        let line = format!(r#"{{"type":"{}"}}"#, event);
        let parsed = adapter.parse_output_line(&line);
        assert!(parsed.content.is_empty(), "should skip {}", event);
        assert!(!parsed.is_assistant, "should not mark {} as assistant", event);
    }
}

#[test]
fn parse_output_line_skips_error_events() {
    let adapter = CodexAdapter::new(None);
    // turn.failed and error events should be skipped (not pollute output)
    let turn_failed = r#"{"type":"turn.failed","error":{"message":"Rate limit exceeded"}}"#;
    let parsed = adapter.parse_output_line(turn_failed);
    assert!(parsed.content.is_empty(), "turn.failed should be skipped");
    assert!(!parsed.is_assistant);

    let error_event = r#"{"type":"error","error":{"message":"Connection failed"}}"#;
    let parsed = adapter.parse_output_line(error_event);
    assert!(parsed.content.is_empty(), "error should be skipped");
    assert!(!parsed.is_assistant);
}

#[test]
fn parse_output_line_skips_unknown_typed_events() {
    let adapter = CodexAdapter::new(None);
    // Unknown events WITH a type field should be skipped
    let line = r#"{"type":"future.new.event","data":"something"}"#;
    let parsed = adapter.parse_output_line(line);
    assert!(parsed.content.is_empty(), "unknown typed event should be skipped");
    assert!(!parsed.is_assistant);
}

#[test]
fn parse_output_line_passes_through_typeless_json() {
    let adapter = CodexAdapter::new(None);
    // JSON without "type" field (like mock data or Loop mode) should pass through
    let line = r#"{"question":"Hi","options":[]}"#;
    let parsed = adapter.parse_output_line(line);
    assert_eq!(parsed.content, line);
    assert_eq!(parsed.line_type, LineType::Text);
    assert!(parsed.is_assistant);
}

#[test]
fn parse_output_line_handles_plain_text() {
    let adapter = CodexAdapter::new(None);
    let line = "Hello world";
    let parsed = adapter.parse_output_line(line);
    assert_eq!(parsed.content, "Hello world");
    assert_eq!(parsed.line_type, LineType::Text);
}

#[test]
fn parse_output_line_preserves_completion_signal() {
    let adapter = CodexAdapter::new(None);
    let line = "<done>COMPLETE</done>";
    let parsed = adapter.parse_output_line(line);
    assert_eq!(parsed.content, "<done>COMPLETE</done>");
    assert!(parsed.is_assistant);
}

#[test]
fn parse_output_line_same_line_same_result() {
    let adapter = CodexAdapter::new(None);
    for line in [
        r#"{"type":"item.completed","item":{"type":"agent_message","text":"hi"}}"#,
        r#"{"type":"turn.started"}"#,
        "plain text",
        r#"{"question":"Hi"}"#,
    ] {
        let a = adapter.parse_output_line(line);
        let b = adapter.parse_output_line(line);
        assert_eq!(a.content, b.content);
        assert_eq!(a.line_type, b.line_type);
        assert_eq!(a.is_assistant, b.is_assistant);
    }
}

#[test]
fn parse_output_line_treats_empty_type_tag_as_untyped() {
    let adapter = CodexAdapter::new(None);
    let line = r#"{"type":""}"#;
    let parsed = adapter.parse_output_line(line);
    assert_eq!(parsed.content, line);
    assert_eq!(parsed.line_type, LineType::Text);
    assert!(parsed.is_assistant);
}

#[test]
fn parse_output_line_skips_non_message_item_completed() {
    let adapter = CodexAdapter::new(None);
    let line = r#"{"type":"item.completed","item":{"type":"reasoning","text":"thinking"}}"#;
    let parsed = adapter.parse_output_line(line);
    assert!(parsed.content.is_empty());
    assert!(!parsed.is_assistant);
    assert_eq!(parsed.line_type, LineType::Json);
}

#[test]
fn detect_completion_finds_literal_substring() {
    let adapter = CodexAdapter::new(None);
    assert!(adapter.detect_completion("all done <done>COMPLETE</done>\n", "<done>COMPLETE</done>"));
    assert!(adapter.detect_completion("abc", "b"));
    assert!(!adapter.detect_completion("abc", "d"));
    assert!(!adapter.detect_completion("", "<done>COMPLETE</done>"));
    assert!(!adapter.detect_completion("nearly <done>COMPLET", "<done>COMPLETE</done>"));
}

#[test]
fn adapter_reports_installation_state() {
    let missing = CodexAdapter::new(None);
    assert!(!missing.is_installed());
    assert_eq!(missing.get_path(), None);
    assert_eq!(missing.name(), "Codex CLI");

    let found = CodexAdapter::new(Some("/usr/local/bin/codex".to_string()));
    assert!(found.is_installed());
    assert_eq!(found.get_path(), Some("/usr/local/bin/codex".to_string()));
}
