use llm_bridge::anthropic::{
    ApiError, ContentDelta, Event, MessageDelta, Response, ResponseContent, Usage,
};
use llm_bridge::{
    convert_usage, update_usage, AnthropicEventMapper, LanguageModelCompletionError,
    LanguageModelCompletionEvent, StopReason, TokenUsage,
};

fn start_tool(index: usize) -> Event {
    Event::ContentBlockStart {
        index,
        content_block: ResponseContent::ToolUse { id: "call_1".to_string(), name: "edit".to_string() },
    }
}

fn delta(index: usize, s: &str) -> Event {
    Event::ContentBlockDelta {
        index,
        delta: ContentDelta::InputJsonDelta { partial_json: s.to_string() },
    }
}

fn usage(input: Option<u64>, output: Option<u64>) -> Usage {
    Usage {
        input_tokens: input,
        output_tokens: output,
        cache_creation_input_tokens: None,
        cache_read_input_tokens: None,
    }
}

fn message_delta(stop: Option<&str>, u: Usage) -> Event {
    Event::MessageDelta {
        delta: MessageDelta { stop_reason: stop.map(|s| s.to_string()), stop_sequence: None },
        usage: u,
    }
}

fn finish(chunks: &[&str]) -> Vec<Result<LanguageModelCompletionEvent, LanguageModelCompletionError>> {
    let mut m = AnthropicEventMapper::new();
    assert!(m.map_event(start_tool(3)).is_empty());
    for c in chunks {
        m.map_event(delta(3, c));
    }
    m.map_event(Event::ContentBlockStop { index: 3 })
}

fn final_tool_use(
    out: Vec<Result<LanguageModelCompletionEvent, LanguageModelCompletionError>>,
) -> llm_bridge::LanguageModelToolUse {
    assert_eq!(out.len(), 1);
    match out.into_iter().next().unwrap() {
        Ok(LanguageModelCompletionEvent::ToolUse(t)) => t,
        other => panic!("expected a tool use, got {:?}", other),
    }
}

#[test]
fn any_chunking_gives_the_same_finished_tool_use() {
    let whole = "{\"path\": \"src/a.rs\", \"lines\": [1, 2]}";
    let a = final_tool_use(finish(&[whole]));
    let b = final_tool_use(finish(&["{\"pa", "th\": \"src/", "a.rs\", \"li", "nes\": [1,", " 2]}"]));
    let c = final_tool_use(finish(&["{", "\"path\": \"src/a.rs\"", ", \"lines\": [1, 2]", "}"]));
    for t in [&a, &b, &c] {
        assert!(t.is_input_complete);
        assert_eq!(t.raw_input, whole);
        assert_eq!(t.id.0, "call_1");
        assert_eq!(t.name, "edit");
    }
    assert_eq!(a.input, b.input);
    assert_eq!(a.input, c.input);
    let expected: serde_json::Value = serde_json::from_str(whole).unwrap();
    assert_eq!(a.input, expected);
}

#[test]
fn malformed_arguments_give_a_parse_error_event() {
    let out = finish(&["{\"a\":"]);
    assert_eq!(out.len(), 1);
    match &out[0] {
        Ok(LanguageModelCompletionEvent::ToolUseJsonParseError {
            id,
            tool_name,
            raw_input,
            json_parse_error,
        }) => {
            assert_eq!(id.0, "call_1");
            assert_eq!(tool_name, "edit");
            assert_eq!(raw_input, "{\"a\":");
            assert!(!json_parse_error.is_empty());
        }
        other => panic!("expected a parse error event, got {:?}", other),
    }
}

#[test]
fn parse_error_reports_the_trimmed_text() {
    let out = finish(&["  {\"a\": ", "\n"]);
    match &out[0] {
        Ok(LanguageModelCompletionEvent::ToolUseJsonParseError { raw_input, .. }) => {
            assert_eq!(raw_input, "{\"a\":");
        }
        other => panic!("expected a parse error event, got {:?}", other),
    }
}

#[test]
fn blank_arguments_parse_as_empty_object() {
    let t = final_tool_use(finish(&["  ", "\n"]));
    assert!(t.is_input_complete);
    assert_eq!(t.input, serde_json::Value::Object(serde_json::Map::new()));
    let t = final_tool_use(finish(&[]));
    assert_eq!(t.raw_input, "");
    assert_eq!(t.input, serde_json::Value::Object(serde_json::Map::new()));
}

#[test]
fn partial_arguments_are_repaired_for_display() {
    let mut m = AnthropicEventMapper::new();
    m.map_event(start_tool(0));
    let out = m.map_event(delta(0, "{\"path\": \"src/ma"));
    assert_eq!(out.len(), 1);
    match &out[0] {
        Ok(LanguageModelCompletionEvent::ToolUse(t)) => {
            assert!(!t.is_input_complete);
            assert_eq!(t.raw_input, "{\"path\": \"src/ma");
            let expected: serde_json::Value = serde_json::from_str("{\"path\": \"src/ma\"}").unwrap();
            assert_eq!(t.input, expected);
        }
        other => panic!("expected a partial tool use, got {:?}", other),
    }
    let out = m.map_event(delta(0, "in.rs\"}"));
    match &out[0] {
        Ok(LanguageModelCompletionEvent::ToolUse(t)) => {
            assert_eq!(t.raw_input, "{\"path\": \"src/main.rs\"}");
        }
        other => panic!("expected a partial tool use, got {:?}", other),
    }
}

#[test]
fn deltas_without_a_tool_call_are_ignored() {
    let mut m = AnthropicEventMapper::new();
    assert!(m.map_event(delta(7, "{\"a\": 1}")).is_empty());
    assert!(m.map_event(Event::ContentBlockStop { index: 7 }).is_empty());
}

#[test]
fn text_and_thinking_blocks_pass_through() {
    let mut m = AnthropicEventMapper::new();
    let out = m.map_event(Event::ContentBlockStart {
        index: 0,
        content_block: ResponseContent::Text { text: "He".to_string() },
    });
    assert!(matches!(&out[0], Ok(LanguageModelCompletionEvent::Text(t)) if t == "He"));
    let out = m.map_event(Event::ContentBlockDelta {
        index: 0,
        delta: ContentDelta::TextDelta { text: "llo".to_string() },
    });
    assert!(matches!(&out[0], Ok(LanguageModelCompletionEvent::Text(t)) if t == "llo"));
    let out = m.map_event(Event::ContentBlockDelta {
        index: 1,
        delta: ContentDelta::ThinkingDelta { thinking: "hm".to_string() },
    });
    assert!(matches!(&out[0], Ok(LanguageModelCompletionEvent::Thinking { text, signature: None }) if text == "hm"));
    let out = m.map_event(Event::ContentBlockDelta {
        index: 1,
        delta: ContentDelta::SignatureDelta { signature: "sig".to_string() },
    });
    assert!(matches!(&out[0], Ok(LanguageModelCompletionEvent::Thinking { text, signature: Some(s) }) if text.is_empty() && s == "sig"));
    let out = m.map_event(Event::ContentBlockStart {
        index: 2,
        content_block: ResponseContent::RedactedThinking { data: "x".to_string() },
    });
    assert!(matches!(&out[0], Ok(LanguageModelCompletionEvent::RedactedThinking { data }) if data == "x"));
    assert!(m.map_event(Event::ContentBlockStop { index: 0 }).is_empty());
    assert!(m.map_event(Event::Ping).is_empty());
}

#[test]
fn usage_counts_are_replaced_not_summed() {
    let mut m = AnthropicEventMapper::new();
    let expected = TokenUsage {
        input_tokens: 20,
        output_tokens: 5,
        cache_creation_input_tokens: 0,
        cache_read_input_tokens: 0,
    };
    let steps = [
        (usage(Some(10), None), TokenUsage { input_tokens: 10, ..TokenUsage::default() }),
        (usage(None, Some(5)), TokenUsage { input_tokens: 10, output_tokens: 5, ..TokenUsage::default() }),
        (usage(Some(20), Some(5)), expected),
    ];
    for (u, after) in steps {
        let out = m.map_event(message_delta(None, u));
        assert_eq!(out.len(), 1);
        assert!(matches!(&out[0], Ok(LanguageModelCompletionEvent::UsageUpdate(t)) if *t == after));
    }
}

#[test]
fn update_usage_keeps_unreported_counts() {
    let mut u = Usage {
        input_tokens: Some(1),
        output_tokens: Some(2),
        cache_creation_input_tokens: Some(3),
        cache_read_input_tokens: None,
    };
    update_usage(&mut u, &Usage {
        input_tokens: None,
        output_tokens: Some(9),
        cache_creation_input_tokens: None,
        cache_read_input_tokens: Some(4),
    });
    assert_eq!(u.input_tokens, Some(1));
    assert_eq!(u.output_tokens, Some(9));
    assert_eq!(u.cache_creation_input_tokens, Some(3));
    assert_eq!(u.cache_read_input_tokens, Some(4));
    assert_eq!(
        convert_usage(&usage(None, Some(7))),
        TokenUsage { input_tokens: 0, output_tokens: 7, cache_creation_input_tokens: 0, cache_read_input_tokens: 0 }
    );
}

#[test]
fn message_start_reports_usage_then_id() {
    let mut m = AnthropicEventMapper::new();
    let out = m.map_event(Event::MessageStart {
        message: Response { id: "msg_1".to_string(), usage: usage(Some(12), Some(1)) },
    });
    assert_eq!(out.len(), 2);
    assert!(matches!(&out[0], Ok(LanguageModelCompletionEvent::UsageUpdate(t)) if t.input_tokens == 12 && t.output_tokens == 1));
    assert!(matches!(&out[1], Ok(LanguageModelCompletionEvent::StartMessage { message_id }) if message_id == "msg_1"));
}

#[test]
fn stop_reason_is_remembered_until_message_stop() {
    let mut m = AnthropicEventMapper::new();
    let out = m.map_event(Event::MessageStop);
    assert!(matches!(&out[0], Ok(LanguageModelCompletionEvent::Stop(StopReason::EndTurn))));
    m.map_event(message_delta(Some("tool_use"), usage(None, None)));
    let out = m.map_event(Event::MessageStop);
    assert!(matches!(&out[0], Ok(LanguageModelCompletionEvent::Stop(StopReason::ToolUse))));
    m.map_event(message_delta(Some("max_tokens"), usage(None, None)));
    assert!(matches!(&m.map_event(Event::MessageStop)[0], Ok(LanguageModelCompletionEvent::Stop(StopReason::MaxTokens))));
    m.map_event(message_delta(Some("refusal"), usage(None, None)));
    assert!(matches!(&m.map_event(Event::MessageStop)[0], Ok(LanguageModelCompletionEvent::Stop(StopReason::Refusal))));
    m.map_event(message_delta(Some("pause_turn"), usage(None, None)));
    assert!(matches!(&m.map_event(Event::MessageStop)[0], Ok(LanguageModelCompletionEvent::Stop(StopReason::EndTurn))));
    m.map_event(message_delta(Some("tool_use"), usage(None, None)));
    m.map_event(message_delta(None, usage(None, None)));
    assert!(matches!(&m.map_event(Event::MessageStop)[0], Ok(LanguageModelCompletionEvent::Stop(StopReason::ToolUse))));
}

#[test]
fn error_events_are_classified() {
    let mut m = AnthropicEventMapper::new();
    let out = m.map_event(Event::Error {
        error: ApiError { error_type: "overloaded_error".to_string(), message: "busy".to_string() },
    });
    assert_eq!(out.len(), 1);
    match &out[0] {
        Err(LanguageModelCompletionError::ServerOverloaded { provider, retry_after }) => {
            assert_eq!(provider.0, "Anthropic");
            assert_eq!(*retry_after, None);
        }
        other => panic!("expected an overload error, got {:?}", other),
    }
}
