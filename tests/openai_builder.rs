use llm_bridge::openai::{self, MessagePart, RequestMessage};
use llm_bridge::{
    add_message_content_part, into_open_ai, LanguageModelImage, LanguageModelRequest,
    LanguageModelRequestMessage, LanguageModelRequestTool, LanguageModelToolChoice,
    LanguageModelToolResult, LanguageModelToolResultContent, LanguageModelToolUse,
    LanguageModelToolUseId, MessageContent, Role,
};

fn text(s: &str) -> MessageContent {
    MessageContent::Text(s.to_string())
}

fn part(s: &str) -> MessagePart {
    MessagePart::Text { text: s.to_string() }
}

fn msg(role: Role, content: Vec<MessageContent>) -> LanguageModelRequestMessage {
    LanguageModelRequestMessage { role, content, cache: false }
}

fn build(messages: Vec<LanguageModelRequestMessage>, model: &str) -> openai::Request {
    let mut req = LanguageModelRequest::default();
    req.messages = messages;
    into_open_ai(req, model, true, Some(256))
}

#[test]
fn parts_join_the_last_message_of_their_role() {
    let mut messages = Vec::new();
    add_message_content_part(part("a"), Role::User, &mut messages);
    add_message_content_part(part("b"), Role::User, &mut messages);
    add_message_content_part(part("c"), Role::Assistant, &mut messages);
    add_message_content_part(part("d"), Role::System, &mut messages);
    assert_eq!(
        messages,
        vec![
            RequestMessage::User { content: vec![part("a"), part("b")] },
            RequestMessage::Assistant { content: Some(vec![part("c")]), tool_calls: vec![] },
            RequestMessage::System { content: vec![part("d")] },
        ]
    );
}

#[test]
fn assistant_without_content_takes_no_part() {
    let mut messages = vec![RequestMessage::Assistant { content: None, tool_calls: vec![] }];
    add_message_content_part(part("x"), Role::Assistant, &mut messages);
    assert_eq!(messages.len(), 2);
    assert_eq!(
        messages[1],
        RequestMessage::Assistant { content: Some(vec![part("x")]), tool_calls: vec![] }
    );
}

#[test]
fn chat_request_merges_roles_and_trims_final_text() {
    let r = build(
        vec![
            msg(Role::System, vec![text("be brief")]),
            msg(Role::User, vec![text("hi ")]),
            msg(Role::User, vec![text("  ")]),
            msg(Role::User, vec![text("there "), MessageContent::RedactedThinking("z".to_string())]),
        ],
        "gpt-4o",
    );
    assert_eq!(
        r.messages,
        vec![
            RequestMessage::System { content: vec![part("be brief")] },
            RequestMessage::User { content: vec![part("hi "), part("there")] },
        ]
    );
    assert!(r.stream);
    assert_eq!(r.model, "gpt-4o");
    assert_eq!(r.max_completion_tokens, Some(256));
    assert_eq!(r.temperature, 1000);
    assert_eq!(r.parallel_tool_calls, None);
}

#[test]
fn tool_calls_and_results_take_their_own_places() {
    let input: serde_json::Value = serde_json::from_str("{ \"q\" : [1, 2] }").unwrap();
    let r = build(
        vec![
            msg(
                Role::Assistant,
                vec![
                    text("let me look"),
                    MessageContent::ToolUse(LanguageModelToolUse {
                        id: LanguageModelToolUseId("c1".to_string()),
                        name: "search".to_string(),
                        raw_input: String::new(),
                        input,
                        is_input_complete: true,
                    }),
                ],
            ),
            msg(
                Role::User,
                vec![MessageContent::ToolResult(LanguageModelToolResult {
                    tool_use_id: LanguageModelToolUseId("c1".to_string()),
                    tool_name: "search".to_string(),
                    is_error: false,
                    content: LanguageModelToolResultContent::Text("found".to_string()),
                    output: None,
                })],
            ),
            msg(Role::User, vec![MessageContent::Image(LanguageModelImage { source: "QQ==".to_string() })]),
        ],
        "o1-mini",
    );
    assert!(!r.stream);
    assert_eq!(r.messages.len(), 3);
    match &r.messages[0] {
        RequestMessage::Assistant { content, tool_calls } => {
            assert_eq!(content, &Some(vec![part("let me look")]));
            assert_eq!(tool_calls.len(), 1);
            assert_eq!(tool_calls[0].id, "c1");
            assert_eq!(tool_calls[0].function.name, "search");
            assert_eq!(tool_calls[0].function.arguments, "{\"q\":[1,2]}");
        }
        other => panic!("expected the assistant message, got {:?}", other),
    }
    assert_eq!(
        r.messages[1],
        RequestMessage::Tool { content: vec![part("found")], tool_call_id: "c1".to_string() }
    );
    assert_eq!(
        r.messages[2],
        RequestMessage::User {
            content: vec![MessagePart::Image {
                image_url: openai::ImageUrl { url: "data:image/png;base64,QQ==".to_string(), detail: None }
            }]
        }
    );
}

#[test]
fn tool_call_without_assistant_message_opens_one() {
    let r = build(
        vec![msg(
            Role::User,
            vec![MessageContent::ToolUse(LanguageModelToolUse {
                id: LanguageModelToolUseId("c2".to_string()),
                name: "ls".to_string(),
                raw_input: String::new(),
                input: serde_json::Value::Null,
                is_input_complete: true,
            })],
        )],
        "gpt",
    );
    match &r.messages[0] {
        RequestMessage::Assistant { content: None, tool_calls } => {
            assert_eq!(tool_calls[0].function.arguments, "null");
        }
        other => panic!("expected an assistant message without content, got {:?}", other),
    }
}

#[test]
fn chat_tools_choice_and_parallel_calls() {
    let mut req = LanguageModelRequest::default();
    req.messages = vec![msg(Role::User, vec![text("go")])];
    req.tools = vec![LanguageModelRequestTool {
        name: "run".to_string(),
        description: "runs".to_string(),
        input_schema: serde_json::Value::Bool(true),
    }];
    req.tool_choice = Some(LanguageModelToolChoice::Any);
    req.temperature = Some(300);
    req.stop = vec!["END".to_string()];
    let r = into_open_ai(req.clone(), "gpt", true, None);
    assert_eq!(r.parallel_tool_calls, Some(false));
    assert_eq!(r.tool_choice, Some(openai::ToolChoice::Required));
    assert_eq!(r.temperature, 300);
    assert_eq!(r.stop, vec!["END".to_string()]);
    assert_eq!(r.tools[0].name, "run");
    assert_eq!(r.tools[0].description.as_deref(), Some("runs"));
    assert_eq!(r.tools[0].parameters, Some(serde_json::Value::Bool(true)));
    let r = into_open_ai(req, "gpt", false, None);
    assert_eq!(r.parallel_tool_calls, None);
}

#[test]
fn system_messages_become_one_leading_system_message() {
    let r = build(
        vec![
            msg(Role::User, vec![text("q1")]),
            msg(Role::System, vec![text("first")]),
            msg(Role::User, vec![text("q2")]),
            msg(Role::System, vec![text("second")]),
            msg(Role::System, vec![text(" ")]),
        ],
        "gpt-4o",
    );
    assert_eq!(
        r.messages,
        vec![
            RequestMessage::System { content: vec![part("first\n\nsecond")] },
            RequestMessage::User { content: vec![part("q1"), part("q2")] },
        ]
    );
    let r = build(vec![msg(Role::User, vec![text("only")])], "gpt-4o");
    assert_eq!(r.messages, vec![RequestMessage::User { content: vec![part("only")] }]);
}

#[test]
fn chat_trim_follows_the_last_message_kept() {
    let with_empty = build(
        vec![
            msg(Role::User, vec![text("a ")]),
            msg(Role::User, vec![text(" ")]),
            msg(Role::System, vec![text("sys ")]),
        ],
        "gpt-4o",
    );
    let without = build(vec![msg(Role::User, vec![text("a ")]), msg(Role::System, vec![text("sys ")])], "gpt-4o");
    assert_eq!(with_empty, without);
    assert_eq!(
        with_empty.messages,
        vec![
            RequestMessage::System { content: vec![part("sys ")] },
            RequestMessage::User { content: vec![part("a")] },
        ]
    );
}

#[test]
fn assistant_text_neighbours_merge() {
    let r = build(
        vec![msg(Role::Assistant, vec![text("x")]), msg(Role::Assistant, vec![text("y"), text("z ")])],
        "gpt-4o",
    );
    assert_eq!(
        r.messages,
        vec![RequestMessage::Assistant { content: Some(vec![part("x"), part("y"), part("z")]), tool_calls: vec![] }]
    );
}
