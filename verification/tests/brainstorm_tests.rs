use cli_adapter::brainstorm::{build_brainstorm_prompt, BRAINSTORM_SYSTEM_PROMPT};
use cli_adapter::{extract_json, AiBrainstormResponse, ConversationMessage, QuestionOption};

#[test]
fn extract_json_from_tagged_fence() {
    let output = "```json\n{\"a\":1}\n```";
    assert_eq!(extract_json(output).unwrap(), "{\"a\":1}");
}

#[test]
fn extract_json_from_tagged_fence_with_surrounding_prose() {
    let output = "Sure, here you go:\n```json\n{\"a\": 1, \"b\": [2, 3]}\n```\nLet me know!";
    assert_eq!(extract_json(output).unwrap(), "{\"a\": 1, \"b\": [2, 3]}");
}

#[test]
fn extract_json_from_bare_braces_with_prose() {
    let output = "Here is the result: {\"a\":1} hope it helps";
    assert_eq!(extract_json(output).unwrap(), "{\"a\":1}");
}

#[test]
fn extract_json_greedy_outer_braces() {
    let output = "x {\"a\":{\"b\":2}} y {\"c\":3} z";
    assert_eq!(extract_json(output).unwrap(), "{\"a\":{\"b\":2}} y {\"c\":3}");
}

#[test]
fn extract_json_from_plain_fence_skips_language_line() {
    let output = "```python\n{\"a\":1}\n```";
    assert_eq!(extract_json(output).unwrap(), "{\"a\":1}");
}

#[test]
fn extract_json_prefers_tagged_fence_over_earlier_plain_fence() {
    let output = "```\nnot this\n```\n```json\n{\"a\":1}\n```";
    assert_eq!(extract_json(output).unwrap(), "{\"a\":1}");
}

#[test]
fn extract_json_unclosed_tagged_fence_falls_back_to_braces() {
    let output = "```json\n{\"a\":1}";
    assert_eq!(extract_json(output).unwrap(), "{\"a\":1}");
}

#[test]
fn extract_json_handles_multibyte_text() {
    let output = "说明：\n```json\n{\"问\":\"答\"}\n```\n谢谢";
    assert_eq!(extract_json(output).unwrap(), "{\"问\":\"答\"}");
}

#[test]
fn extract_json_fails_without_braces() {
    let output = "no structured payload here";
    let err = extract_json(output).unwrap_err();
    assert_eq!(err, "No JSON found in output: no structured payload here");
}

#[test]
fn extract_json_fails_when_braces_are_reversed() {
    let output = "} {";
    assert!(extract_json(output).is_err());
}

#[test]
fn extract_json_trims_fenced_content() {
    let output = "  ```json\n  {\"a\": 1}  \n```  ";
    assert_eq!(extract_json(output).unwrap(), "{\"a\": 1}");
}

#[test]
fn brainstorm_prompt_renders_one_user_turn() {
    let conversation = vec![ConversationMessage {
        role: "user".to_string(),
        content: "build a todo app".to_string(),
    }];
    let prompt = build_brainstorm_prompt(&conversation);
    assert!(prompt.starts_with(BRAINSTORM_SYSTEM_PROMPT));
    assert!(prompt.contains("## 当前对话"));
    assert!(prompt.contains("用户: build a todo app\n\n"));
    assert!(prompt.ends_with("只输出 JSON，不要其他内容。"));
}

#[test]
fn brainstorm_prompt_renders_roles_in_order() {
    let conversation = vec![
        ConversationMessage {
            role: "user".to_string(),
            content: "first".to_string(),
        },
        ConversationMessage {
            role: "assistant".to_string(),
            content: "second".to_string(),
        },
    ];
    let prompt = build_brainstorm_prompt(&conversation);
    assert!(prompt.contains("用户: first\n\n助手: second\n\n"));
}

#[test]
fn brainstorm_prompt_on_empty_history_has_empty_context() {
    let prompt = build_brainstorm_prompt(&[]);
    assert!(prompt.contains("## 当前对话\n\n\n\n请根据对话历史"));
}

#[test]
fn brainstorm_response_holds_completion_artifacts() {
    let response = AiBrainstormResponse {
        question: "需求收集完成".to_string(),
        description: Some("我已经了解了你的需求".to_string()),
        options: vec![QuestionOption {
            label: "a".to_string(),
            description: None,
            value: "a".to_string(),
        }],
        multi_select: false,
        allow_other: false,
        is_complete: true,
        generated_prompt: Some("do the task\n<done>COMPLETE</done>".to_string()),
    };
    assert!(response.is_complete);
    assert!(response
        .generated_prompt
        .as_deref()
        .unwrap()
        .contains("<done>COMPLETE</done>"));
    assert_eq!(response.options.len(), 1);
}

#[test]
fn system_prompt_fixes_the_wire_schema_and_sentinel() {
    assert!(BRAINSTORM_SYSTEM_PROMPT.contains("\"multiSelect\""));
    assert!(BRAINSTORM_SYSTEM_PROMPT.contains("\"allowOther\""));
    assert!(BRAINSTORM_SYSTEM_PROMPT.contains("\"isComplete\""));
    assert!(BRAINSTORM_SYSTEM_PROMPT.contains("\"generatedPrompt\""));
    assert!(BRAINSTORM_SYSTEM_PROMPT.contains("<done>COMPLETE</done>"));
}
