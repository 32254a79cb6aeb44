use llm_bridge::anthropic::{self, AnthropicModelMode, RequestContent};
use llm_bridge::{
    into_anthropic, LanguageModelImage, LanguageModelRequest, LanguageModelRequestMessage,
    LanguageModelRequestTool, LanguageModelToolChoice, LanguageModelToolResult,
    LanguageModelToolResultContent, LanguageModelToolUse, LanguageModelToolUseId, MessageContent,
    Role,
};

fn text(s: &str) -> MessageContent {
    MessageContent::Text(s.to_string())
}

fn msg(role: Role, content: Vec<MessageContent>, cache: bool) -> LanguageModelRequestMessage {
    LanguageModelRequestMessage { role, content, cache }
}

fn build(messages: Vec<LanguageModelRequestMessage>) -> anthropic::Request {
    let mut req = LanguageModelRequest::default();
    req.messages = messages;
    into_anthropic(req, "chat-large".to_string(), 1000, 4096, AnthropicModelMode::Default)
}

fn block_text(b: &RequestContent) -> &str {
    match b {
        RequestContent::Text { text, .. } => text.as_str(),
        _ => panic!("not a text block: {:?}", b),
    }
}

fn is_cached(b: &RequestContent) -> bool {
    match b {
        RequestContent::Text { cache_control, .. }
        | RequestContent::Thinking { cache_control, .. }
        | RequestContent::Image { cache_control, .. }
        | RequestContent::ToolUse { cache_control, .. }
        | RequestContent::ToolResult { cache_control, .. } => cache_control.is_some(),
        RequestContent::RedactedThinking { .. } => false,
    }
}

#[test]
fn single_user_hi_gives_one_user_message() {
    let r = build(vec![msg(Role::User, vec![text("Hi")], false)]);
    assert_eq!(r.messages.len(), 1);
    assert_eq!(r.messages[0].role, anthropic::Role::User);
    assert_eq!(r.messages[0].content.len(), 1);
    assert_eq!(block_text(&r.messages[0].content[0]), "Hi");
    assert!(r.system.is_none());
    assert!(r.tools.is_empty());
    assert_eq!(r.model, "chat-large");
    assert_eq!(r.max_tokens, 4096);
    assert_eq!(r.temperature, Some(1000));
}

#[test]
fn adjacent_same_role_messages_merge() {
    let r = build(vec![
        msg(Role::User, vec![text("a")], false),
        msg(Role::User, vec![text("b"), text("c")], false),
        msg(Role::Assistant, vec![text("d")], false),
    ]);
    assert_eq!(r.messages.len(), 2);
    let first: Vec<&str> = r.messages[0].content.iter().map(block_text).collect();
    assert_eq!(first, vec!["a", "b", "c"]);
    assert_eq!(r.messages[1].role, anthropic::Role::Assistant);
}

#[test]
fn system_messages_between_users_do_not_split_them() {
    let r = build(vec![
        msg(Role::User, vec![text("a")], false),
        msg(Role::System, vec![text("rules")], false),
        msg(Role::User, vec![text("b")], false),
        msg(Role::System, vec![text("more")], false),
    ]);
    assert_eq!(r.messages.len(), 1);
    assert_eq!(r.messages[0].content.len(), 2);
    assert_eq!(r.system.as_deref(), Some("rules\n\nmore"));
}

#[test]
fn empty_messages_are_dropped() {
    let r = build(vec![
        msg(Role::User, vec![text("  \n")], false),
        msg(Role::Assistant, vec![text("x")], false),
        msg(Role::System, vec![text(" ")], false),
    ]);
    assert_eq!(r.messages.len(), 1);
    assert_eq!(r.messages[0].role, anthropic::Role::Assistant);
    assert!(r.system.is_none());
}

#[test]
fn cache_marker_skips_redacted_thinking() {
    let r = build(vec![msg(
        Role::Assistant,
        vec![
            text("one"),
            MessageContent::RedactedThinking("blob".to_string()),
            text("two"),
        ],
        true,
    )]);
    let blocks = &r.messages[0].content;
    assert_eq!(blocks.len(), 3);
    assert!(!is_cached(&blocks[0]));
    assert!(!is_cached(&blocks[1]));
    assert!(is_cached(&blocks[2]));
    assert_eq!(block_text(&blocks[2]), "two");
}

#[test]
fn cache_marker_falls_back_past_trailing_redacted_thinking() {
    let r = build(vec![msg(
        Role::User,
        vec![text("one"), MessageContent::RedactedThinking("blob".to_string())],
        true,
    )]);
    let blocks = &r.messages[0].content;
    assert!(is_cached(&blocks[0]));
    assert!(!is_cached(&blocks[1]));
}

#[test]
fn cache_hint_unset_marks_nothing() {
    let r = build(vec![msg(Role::User, vec![text("one"), text("two")], false)]);
    assert!(r.messages[0].content.iter().all(|b| !is_cached(b)));
}

#[test]
fn every_text_loses_trailing_whitespace() {
    let r = build(vec![
        msg(Role::User, vec![text("keep \n")], false),
        msg(Role::Assistant, vec![text("mid "), text(" \t"), text("end \t\n")], false),
    ]);
    assert_eq!(block_text(&r.messages[0].content[0]), "keep");
    assert_eq!(r.messages[1].content.len(), 2);
    assert_eq!(block_text(&r.messages[1].content[0]), "mid");
    assert_eq!(block_text(&r.messages[1].content[1]), "end");
}

#[test]
fn trailing_empty_message_does_not_stop_the_trim() {
    let with_empty = build(vec![
        msg(Role::User, vec![text("a ")], false),
        msg(Role::User, vec![text(" ")], false),
    ]);
    let without = build(vec![msg(Role::User, vec![text("a ")], false)]);
    assert_eq!(with_empty, without);
    assert_eq!(block_text(&with_empty.messages[0].content[0]), "a");
}

#[test]
fn trimming_twice_equals_trimming_once() {
    let once = build(vec![msg(Role::Assistant, vec![text("done  \u{3000}\n")], false)]);
    let once_text = block_text(&once.messages[0].content[0]).to_string();
    assert_eq!(once_text, "done");
    let twice = build(vec![msg(Role::Assistant, vec![text(&once_text)], false)]);
    assert_eq!(block_text(&twice.messages[0].content[0]), once_text);
}

#[test]
fn thinking_needs_mode_and_permission() {
    let mut req = LanguageModelRequest::default();
    req.messages = vec![msg(Role::User, vec![text("q")], false)];
    req.thinking_allowed = true;
    let mode = AnthropicModelMode::Thinking { budget_tokens: Some(512) };
    let on = into_anthropic(req.clone(), "m".to_string(), 1000, 10, mode);
    assert_eq!(on.thinking, Some(anthropic::Thinking::Enabled { budget_tokens: Some(512) }));
    req.thinking_allowed = false;
    let off = into_anthropic(req.clone(), "m".to_string(), 1000, 10, mode);
    assert_eq!(off.thinking, None);
    req.thinking_allowed = true;
    let default_mode = into_anthropic(req, "m".to_string(), 1000, 10, AnthropicModelMode::Default);
    assert_eq!(default_mode.thinking, None);
}

#[test]
fn tools_choice_and_temperature_carry_over() {
    let mut req = LanguageModelRequest::default();
    req.messages = vec![msg(Role::User, vec![text("q")], false)];
    req.tools = vec![LanguageModelRequestTool {
        name: "grep".to_string(),
        description: "search".to_string(),
        input_schema: serde_json::from_str("{\"type\":\"object\"}").unwrap(),
    }];
    req.tool_choice = Some(LanguageModelToolChoice::Any);
    req.temperature = Some(250);
    req.stop = vec!["STOP".to_string()];
    let r = into_anthropic(req, "m".to_string(), 1000, 10, AnthropicModelMode::Default);
    assert_eq!(r.tools.len(), 1);
    assert_eq!(r.tools[0].name, "grep");
    assert_eq!(r.tools[0].description, "search");
    assert_eq!(r.tool_choice, Some(anthropic::ToolChoice::Any));
    assert_eq!(r.temperature, Some(250));
    assert!(r.stop_sequences.is_empty());
}

#[test]
fn every_unit_kind_becomes_its_block() {
    let input: serde_json::Value = serde_json::from_str("{\"path\":\"a\"}").unwrap();
    let r = build(vec![
        msg(
            Role::Assistant,
            vec![
                MessageContent::Thinking { text: "hmm".to_string(), signature: None },
                MessageContent::Thinking { text: String::new(), signature: None },
                MessageContent::RedactedThinking(String::new()),
                MessageContent::ToolUse(LanguageModelToolUse {
                    id: LanguageModelToolUseId("t1".to_string()),
                    name: "read".to_string(),
                    raw_input: "{\"path\":\"a\"}".to_string(),
                    input: input.clone(),
                    is_input_complete: true,
                }),
            ],
            false,
        ),
        msg(
            Role::User,
            vec![
                MessageContent::ToolResult(LanguageModelToolResult {
                    tool_use_id: LanguageModelToolUseId("t1".to_string()),
                    tool_name: "read".to_string(),
                    is_error: false,
                    content: LanguageModelToolResultContent::Text("body".to_string()),
                    output: None,
                }),
                MessageContent::Image(LanguageModelImage { source: "AAAA".to_string() }),
            ],
            false,
        ),
    ]);
    assert_eq!(r.messages.len(), 2);
    let a = &r.messages[0].content;
    assert_eq!(a.len(), 2);
    assert_eq!(
        a[0],
        RequestContent::Thinking {
            thinking: "hmm".to_string(),
            signature: String::new(),
            cache_control: None
        }
    );
    assert_eq!(
        a[1],
        RequestContent::ToolUse {
            id: "t1".to_string(),
            name: "read".to_string(),
            input,
            cache_control: None
        }
    );
    let u = &r.messages[1].content;
    assert_eq!(
        u[0],
        RequestContent::ToolResult {
            tool_use_id: "t1".to_string(),
            is_error: false,
            content: anthropic::ToolResultContent::Plain("body".to_string()),
            cache_control: None
        }
    );
    match &u[1] {
        RequestContent::Image { source, .. } => {
            assert_eq!(source.source_type, "base64");
            assert_eq!(source.media_type, "image/png");
            assert_eq!(source.data, "AAAA");
        }
        other => panic!("expected an image, got {:?}", other),
    }
}
