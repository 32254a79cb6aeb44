use llm_bridge::{
    count_anthropic_tokens, LanguageModelRequest, LanguageModelRequestMessage,
    LanguageModelToolResult, LanguageModelToolResultContent, LanguageModelToolUseId,
    MessageContent, Role,
};

fn decode(json: &str) -> Option<LanguageModelToolResultContent> {
    let v: serde_json::Value = serde_json::from_str(json).unwrap();
    LanguageModelToolResultContent::from_json(&v)
}

fn text(s: &str) -> Option<LanguageModelToolResultContent> {
    Some(LanguageModelToolResultContent::Text(s.to_string()))
}

#[test]
fn tool_result_from_plain_string() {
    assert_eq!(decode("\"hello\""), text("hello"));
}

#[test]
fn tool_result_from_typed_text_object() {
    assert_eq!(decode("{\"type\": \"text\", \"text\": \"hi\"}"), text("hi"));
    assert_eq!(decode("{\"TYPE\": \"Text\", \"Text\": \"hi\", \"extra\": 1}"), text("hi"));
}

#[test]
fn tool_result_from_wrapped_text() {
    assert_eq!(decode("{\"Text\": \"wrapped\"}"), text("wrapped"));
    assert_eq!(decode("{\"text\": \"a\", \"other\": 2}"), None);
    assert_eq!(decode("{\"text\": 5}"), None);
}

#[test]
fn tool_result_rejects_other_values() {
    assert_eq!(decode("42"), None);
    assert_eq!(decode("[\"a\"]"), None);
    assert_eq!(decode("{\"type\": \"image\", \"text\": \"x\", \"more\": true}"), None);
    assert_eq!(decode("{\"image\": {\"source\": \"x\"}}"), None);
}

fn request(content: Vec<MessageContent>) -> LanguageModelRequest {
    let mut req = LanguageModelRequest::default();
    req.messages = vec![LanguageModelRequestMessage { role: Role::User, content, cache: false }];
    req
}

#[test]
fn token_count_skips_thinking_and_counts_text() {
    let empty = count_anthropic_tokens(LanguageModelRequest::default()).unwrap();
    assert_eq!(empty, 3);
    let thinking_only = count_anthropic_tokens(request(vec![MessageContent::Thinking {
        text: "a long line of private reasoning".to_string(),
        signature: None,
    }]))
    .unwrap();
    assert_eq!(thinking_only, empty);
    let short = count_anthropic_tokens(request(vec![MessageContent::Text("who are you".to_string())])).unwrap();
    assert!(short > empty);
    let longer = count_anthropic_tokens(request(vec![
        MessageContent::Text("who are you".to_string()),
        MessageContent::ToolResult(LanguageModelToolResult {
            tool_use_id: LanguageModelToolUseId("t".to_string()),
            tool_name: "n".to_string(),
            is_error: false,
            content: LanguageModelToolResultContent::Text(" and what can you do for me".to_string()),
            output: None,
        }),
    ]))
    .unwrap();
    assert!(longer > short);
}
