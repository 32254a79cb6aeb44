//! The streaming side of the Anthropic protocol: a reducer from wire events
//! to neutral completion events.
use crate::anthropic::{ContentDelta, Event, ResponseContent, Usage};
use crate::errors::{api_error_kind, LanguageModelCompletionError};
use crate::json::{
    empty_json_object, final_arguments, json_error_text, json_parse, parse_json, repair_json,
    repaired_json,
};
use crate::text::{trim_seq, trim_str};
use crate::types::{
    LanguageModelCompletionEvent, LanguageModelToolUse, LanguageModelToolUseId, StopReason,
    TokenUsage,
};
use std::collections::HashMap;
use vstd::prelude::*;
use vstd::string::StringExecFns;

verus! {

/// A tool call whose arguments are still arriving.
pub struct RawToolUse {
    pub id: String,
    pub name: String,
    pub input_json: String,
}

/// A tool call in progress, as values.
pub struct ToolAccumulator {
    pub id: Seq<char>,
    pub name: Seq<char>,
    pub input: Seq<char>,
}

impl View for RawToolUse {
    type V = ToolAccumulator;

    open spec fn view(&self) -> ToolAccumulator {
        ToolAccumulator { id: self.id@, name: self.name@, input: self.input_json@ }
    }
}

/// What the mapper remembers between events.
pub struct MapperState {
    pub tools: Map<usize, ToolAccumulator>,
    pub usage: Usage,
    pub stop_reason: StopReason,
}

/// Each count that `new` reports replaces the one kept; the others stay.
pub open spec fn merge_usage(kept: Usage, new: Usage) -> Usage {
    Usage {
        input_tokens: if new.input_tokens is Some {
            new.input_tokens
        } else {
            kept.input_tokens
        },
        output_tokens: if new.output_tokens is Some {
            new.output_tokens
        } else {
            kept.output_tokens
        },
        cache_creation_input_tokens: if new.cache_creation_input_tokens is Some {
            new.cache_creation_input_tokens
        } else {
            kept.cache_creation_input_tokens
        },
        cache_read_input_tokens: if new.cache_read_input_tokens is Some {
            new.cache_read_input_tokens
        } else {
            kept.cache_read_input_tokens
        },
    }
}

pub open spec fn count_or_zero(c: Option<u64>) -> u64 {
    match c {
        Some(n) => n,
        None => 0,
    }
}

/// The usage as the neutral counters, a missing count read as zero.
pub open spec fn token_usage(u: Usage) -> TokenUsage {
    TokenUsage {
        input_tokens: count_or_zero(u.input_tokens),
        output_tokens: count_or_zero(u.output_tokens),
        cache_creation_input_tokens: count_or_zero(u.cache_creation_input_tokens),
        cache_read_input_tokens: count_or_zero(u.cache_read_input_tokens),
    }
}

/// The stop reason that a reported name stands for; an unknown name ends
/// the turn.
pub open spec fn stop_reason_of(name: Seq<char>) -> StopReason {
    if name == "max_tokens"@ {
        StopReason::MaxTokens
    } else if name == "tool_use"@ {
        StopReason::ToolUse
    } else if name == "refusal"@ {
        StopReason::Refusal
    } else {
        StopReason::EndTurn
    }
}

/// The state after one event.
pub open spec fn next_state(s: MapperState, e: Event) -> MapperState {
    match e {
        Event::ContentBlockStart { index, content_block } => match content_block {
            ResponseContent::ToolUse { id, name } => MapperState {
                tools: s.tools.insert(
                    index,
                    ToolAccumulator { id: id@, name: name@, input: Seq::empty() },
                ),
                ..s
            },
            _ => s,
        },
        Event::ContentBlockDelta { index, delta } => match delta {
            ContentDelta::InputJsonDelta { partial_json } => if s.tools.contains_key(index) {
                let acc = s.tools[index];
                MapperState {
                    tools: s.tools.insert(
                        index,
                        ToolAccumulator { input: acc.input + partial_json@, ..acc },
                    ),
                    ..s
                }
            } else {
                s
            },
            _ => s,
        },
        Event::ContentBlockStop { index } => MapperState { tools: s.tools.remove(index), ..s },
        Event::MessageStart { message } => MapperState {
            usage: merge_usage(s.usage, message.usage),
            ..s
        },
        Event::MessageDelta { delta, usage } => MapperState {
            usage: merge_usage(s.usage, usage),
            stop_reason: match delta.stop_reason {
                Some(name) => stop_reason_of(name@),
                None => s.stop_reason,
            },
            ..s
        },
        _ => s,
    }
}

/// `ev` is the tool call `acc` with arguments text `raw`, parsed as `input`.
pub open spec fn is_tool_use_event(
    ev: LanguageModelCompletionEvent,
    acc: ToolAccumulator,
    raw: Seq<char>,
    input: serde_json::Value,
    complete: bool,
) -> bool {
    ev matches LanguageModelCompletionEvent::ToolUse(tu) && tu.id.0@ == acc.id && tu.name@
        == acc.name && tu.raw_input@ == raw && tu.input == input && tu.is_input_complete
        == complete
}

/// What a finished tool call gives: for blank arguments, the finished call
/// with the empty object; else the finished call with the strict parse of
/// the trimmed text, or the parse error with that text.
pub open spec fn finished_tool_event(
    ev: LanguageModelCompletionEvent,
    acc: ToolAccumulator,
) -> bool {
    if trim_seq(acc.input).len() == 0 {
        ev matches LanguageModelCompletionEvent::ToolUse(tu) && tu.id.0@ == acc.id && tu.name@
            == acc.name && tu.raw_input@ == acc.input && tu.is_input_complete && json_parse(
            seq!['{', '}'],
        ) == Some(tu.input)
    } else {
        match json_parse(trim_seq(acc.input)) {
            Some(v) => is_tool_use_event(ev, acc, acc.input, v, true),
            None => ev matches LanguageModelCompletionEvent::ToolUseJsonParseError {
                id,
                tool_name,
                raw_input,
                json_parse_error,
            } && id.0@ == acc.id && tool_name@ == acc.name && raw_input@ == trim_seq(acc.input)
                && json_parse_error@ == json_error_text(trim_seq(acc.input)),
        }
    }
}

/// The events that one wire event gives in state `s`.
pub open spec fn mapped_events(
    s: MapperState,
    e: Event,
    out: Seq<Result<LanguageModelCompletionEvent, LanguageModelCompletionError>>,
) -> bool {
    match e {
        Event::ContentBlockStart { index, content_block } => match content_block {
            ResponseContent::Text { text } => out == seq![
                Ok::<_, LanguageModelCompletionError>(LanguageModelCompletionEvent::Text(text)),
            ],
            ResponseContent::Thinking { thinking } => out == seq![
                Ok::<_, LanguageModelCompletionError>(
                    LanguageModelCompletionEvent::Thinking { text: thinking, signature: None },
                ),
            ],
            ResponseContent::RedactedThinking { data } => out == seq![
                Ok::<_, LanguageModelCompletionError>(
                    LanguageModelCompletionEvent::RedactedThinking { data },
                ),
            ],
            ResponseContent::ToolUse { .. } => out.len() == 0,
        },
        Event::ContentBlockDelta { index, delta } => match delta {
            ContentDelta::TextDelta { text } => out == seq![
                Ok::<_, LanguageModelCompletionError>(LanguageModelCompletionEvent::Text(text)),
            ],
            ContentDelta::ThinkingDelta { thinking } => out == seq![
                Ok::<_, LanguageModelCompletionError>(
                    LanguageModelCompletionEvent::Thinking { text: thinking, signature: None },
                ),
            ],
            ContentDelta::SignatureDelta { signature } => {
                &&& out.len() == 1
                &&& out[0] matches Ok(LanguageModelCompletionEvent::Thinking { text, signature: Some(sig) })
                    && text@.len() == 0 && sig == signature
            },
            ContentDelta::InputJsonDelta { partial_json } => if s.tools.contains_key(index) {
                let acc = s.tools[index];
                let raw = acc.input + partial_json@;
                match json_parse(repaired_json(raw)) {
                    Some(v) => {
                        &&& out.len() == 1
                        &&& out[0] matches Ok(ev) && is_tool_use_event(ev, acc, raw, v, false)
                    },
                    None => out.len() == 0,
                }
            } else {
                out.len() == 0
            },
        },
        Event::ContentBlockStop { index } => if s.tools.contains_key(index) {
            &&& out.len() == 1
            &&& out[0] matches Ok(ev) && finished_tool_event(ev, s.tools[index])
        } else {
            out.len() == 0
        },
        Event::MessageStart { message } => {
            &&& out.len() == 2
            &&& out[0] == Ok::<_, LanguageModelCompletionError>(
                LanguageModelCompletionEvent::UsageUpdate(token_usage(next_state(s, e).usage)),
            )
            &&& out[1] matches Ok(LanguageModelCompletionEvent::StartMessage { message_id })
                && message_id == message.id
        },
        Event::MessageDelta { .. } => out == seq![
            Ok::<_, LanguageModelCompletionError>(
                LanguageModelCompletionEvent::UsageUpdate(token_usage(next_state(s, e).usage)),
            ),
        ],
        Event::MessageStop => out == seq![
            Ok::<_, LanguageModelCompletionError>(LanguageModelCompletionEvent::Stop(s.stop_reason)),
        ],
        Event::Error { error } => {
            &&& out.len() == 1
            &&& out[0] matches Err(err) && api_error_kind(error, err)
        },
        Event::Ping => out.len() == 0,
    }
}

type MappedEvent = Result<LanguageModelCompletionEvent, LanguageModelCompletionError>;

fn single(e: MappedEvent) -> (r: Vec<MappedEvent>)
    ensures
        r@ == seq![e],
{
    let mut v: Vec<MappedEvent> = Vec::new();
    v.push(e);
    assert(v@ =~= seq![e]);
    v
}

fn pair(a: MappedEvent, b: MappedEvent) -> (r: Vec<MappedEvent>)
    ensures
        r@ == seq![a, b],
{
    let mut v: Vec<MappedEvent> = Vec::new();
    v.push(a);
    v.push(b);
    assert(v@ =~= seq![a, b]);
    v
}

/// Turns the Anthropic stream's events into neutral completion events. One
/// mapper serves one response.
pub struct AnthropicEventMapper {
    tool_uses_by_index: HashMap<usize, RawToolUse>,
    usage: Usage,
    stop_reason: StopReason,
}

impl View for AnthropicEventMapper {
    type V = MapperState;

    closed spec fn view(&self) -> MapperState {
        MapperState {
            tools: self.tool_uses_by_index@.map_values(|t: RawToolUse| t@),
            usage: self.usage,
            stop_reason: self.stop_reason,
        }
    }
}

/// Replaces each count of `usage` that `new` reports.
pub fn update_usage(usage: &mut Usage, new: &Usage)
    ensures
        *final(usage) == merge_usage(*old(usage), *new),
{
    if let Some(input_tokens) = new.input_tokens {
        usage.input_tokens = Some(input_tokens);
    }
    if let Some(output_tokens) = new.output_tokens {
        usage.output_tokens = Some(output_tokens);
    }
    if let Some(cache_creation_input_tokens) = new.cache_creation_input_tokens {
        usage.cache_creation_input_tokens = Some(cache_creation_input_tokens);
    }
    if let Some(cache_read_input_tokens) = new.cache_read_input_tokens {
        usage.cache_read_input_tokens = Some(cache_read_input_tokens);
    }
}

/// The neutral counters of `usage`, a missing count read as zero.
pub fn convert_usage(usage: &Usage) -> (r: TokenUsage)
    ensures
        r == token_usage(*usage),
{
    TokenUsage {
        input_tokens: match usage.input_tokens {
            Some(n) => n,
            None => 0,
        },
        output_tokens: match usage.output_tokens {
            Some(n) => n,
            None => 0,
        },
        cache_creation_input_tokens: match usage.cache_creation_input_tokens {
            Some(n) => n,
            None => 0,
        },
        cache_read_input_tokens: match usage.cache_read_input_tokens {
            Some(n) => n,
            None => 0,
        },
    }
}

fn stop_reason_from_name(name: &String) -> (r: StopReason)
    ensures
        r == stop_reason_of(name@),
{
    proof {
        reveal_strlit("end_turn");
        reveal_strlit("max_tokens");
        reveal_strlit("tool_use");
        reveal_strlit("refusal");
    }
    if *name == String::from_str("end_turn") {
        assert(name@ != "max_tokens"@ && name@ != "tool_use"@ && name@ != "refusal"@) by {
            assert(name@[0] != "max_tokens"@[0]);
            assert(name@[0] != "tool_use"@[0]);
            assert(name@.len() != "refusal"@.len());
        }
        StopReason::EndTurn
    } else if *name == String::from_str("max_tokens") {
        StopReason::MaxTokens
    } else if *name == String::from_str("tool_use") {
        StopReason::ToolUse
    } else if *name == String::from_str("refusal") {
        StopReason::Refusal
    } else {
        StopReason::EndTurn
    }
}

impl AnthropicEventMapper {
    /// A mapper with no tool call in progress, no usage and `EndTurn` as the
    /// stop reason.
    pub fn new() -> (r: Self)
        ensures
            r@.tools == Map::<usize, ToolAccumulator>::empty(),
            r@.usage == (Usage {
                input_tokens: None,
                output_tokens: None,
                cache_creation_input_tokens: None,
                cache_read_input_tokens: None,
            }),
            r@.stop_reason == StopReason::EndTurn,
    {
        let r = AnthropicEventMapper {
            tool_uses_by_index: HashMap::new(),
            usage: Usage {
                input_tokens: None,
                output_tokens: None,
                cache_creation_input_tokens: None,
                cache_read_input_tokens: None,
            },
            stop_reason: StopReason::EndTurn,
        };
        assert(r@.tools =~= Map::<usize, ToolAccumulator>::empty());
        r
    }

    /// The events that `event` gives, in order; the state moves on as
    /// `next_state` says.
    pub fn map_event(&mut self, event: Event) -> (r: Vec<
        Result<LanguageModelCompletionEvent, LanguageModelCompletionError>,
    >)
        ensures
            final(self)@ == next_state(old(self)@, event),
            mapped_events(old(self)@, event, r@),
    {
        broadcast use vstd::std_specs::hash::group_hash_axioms;

        let ghost s0 = self@;
        match event {
            Event::ContentBlockStart { index, content_block } => match content_block {
                ResponseContent::Text { text } => {
                    single(Ok(LanguageModelCompletionEvent::Text(text)))
                },
                ResponseContent::Thinking { thinking } => {
                    single(Ok(LanguageModelCompletionEvent::Thinking { text: thinking, signature: None }))
                },
                ResponseContent::RedactedThinking { data } => {
                    single(Ok(LanguageModelCompletionEvent::RedactedThinking { data }))
                },
                ResponseContent::ToolUse { id, name } => {
                    self.tool_uses_by_index.insert(
                        index,
                        RawToolUse { id, name, input_json: String::new() },
                    );
                    assert(self@.tools =~= next_state(s0, event).tools);
                    Vec::new()
                },
            },
            Event::ContentBlockDelta { index, delta } => match delta {
                ContentDelta::TextDelta { text } => {
                    single(Ok(LanguageModelCompletionEvent::Text(text)))
                },
                ContentDelta::ThinkingDelta { thinking } => {
                    single(Ok(LanguageModelCompletionEvent::Thinking { text: thinking, signature: None }))
                },
                ContentDelta::SignatureDelta { signature } => {
                    single(Ok(LanguageModelCompletionEvent::Thinking {
                        text: String::new(),
                        signature: Some(signature),
                    }))
                },
                ContentDelta::InputJsonDelta { partial_json } => {
                    match self.tool_uses_by_index.remove(&index) {
                        Some(mut tool_use) => {
                            tool_use.input_json.append(partial_json.as_str());
                            let repaired = repair_json(tool_use.input_json.as_str());
                            let out = match parse_json(repaired.as_str()) {
                                Ok(input) => single(Ok(LanguageModelCompletionEvent::ToolUse(
                                    LanguageModelToolUse {
                                        id: LanguageModelToolUseId(tool_use.id.clone()),
                                        name: tool_use.name.clone(),
                                        is_input_complete: false,
                                        raw_input: tool_use.input_json.clone(),
                                        input,
                                    },
                                ))),
                                Err(_) => Vec::new(),
                            };
                            self.tool_uses_by_index.insert(index, tool_use);
                            assert(self@.tools =~= next_state(s0, event).tools);
                            out
                        },
                        None => {
                            assert(self@.tools =~= s0.tools);
                            Vec::new()
                        },
                    }
                },
            },
            Event::ContentBlockStop { index } => {
                match self.tool_uses_by_index.remove(&index) {
                    Some(tool_use) => {
                        assert(self@.tools =~= next_state(s0, event).tools);
                        let input_json = trim_str(tool_use.input_json.as_str());
                        let input_value = if input_json.is_empty() {
                            Ok(empty_json_object())
                        } else {
                            parse_json(input_json)
                        };
                        let event_result = match input_value {
                            Ok(input) => LanguageModelCompletionEvent::ToolUse(
                                LanguageModelToolUse {
                                    id: LanguageModelToolUseId(tool_use.id),
                                    name: tool_use.name,
                                    is_input_complete: true,
                                    input,
                                    raw_input: tool_use.input_json,
                                },
                            ),
                            Err(json_parse_error) => {
                                LanguageModelCompletionEvent::ToolUseJsonParseError {
                                    id: LanguageModelToolUseId(tool_use.id),
                                    tool_name: tool_use.name,
                                    raw_input: String::from_str(input_json),
                                    json_parse_error,
                                }
                            },
                        };
                        single(Ok(event_result))
                    },
                    None => {
                        assert(self@.tools =~= next_state(s0, event).tools);
                        Vec::new()
                    },
                }
            },
            Event::MessageStart { message } => {
                update_usage(&mut self.usage, &message.usage);
                let usage = convert_usage(&self.usage);
                pair(
                    Ok(LanguageModelCompletionEvent::UsageUpdate(usage)),
                    Ok(LanguageModelCompletionEvent::StartMessage { message_id: message.id }),
                )
            },
            Event::MessageDelta { delta, usage } => {
                update_usage(&mut self.usage, &usage);
                if let Some(stop_reason) = &delta.stop_reason {
                    self.stop_reason = stop_reason_from_name(stop_reason);
                }
                single(Ok(LanguageModelCompletionEvent::UsageUpdate(convert_usage(&self.usage))))
            },
            Event::MessageStop => { single(Ok(LanguageModelCompletionEvent::Stop(self.stop_reason))) },
            Event::Error { error } => { single(Err(LanguageModelCompletionError::from_api_error(error))) },
            Event::Ping => Vec::new(),
        }
    }
}

/// The state after a sequence of events.
pub open spec fn feed(s: MapperState, events: Seq<Event>) -> MapperState
    decreases events.len(),
{
    if events.len() == 0 {
        s
    } else {
        next_state(feed(s, events.drop_last()), events.last())
    }
}

/// The argument pieces of the tool call at `index`, one event each.
pub open spec fn argument_deltas(index: usize, chunks: Seq<String>) -> Seq<Event> {
    Seq::new(
        chunks.len(),
        |i: int|
            Event::ContentBlockDelta {
                index,
                delta: ContentDelta::InputJsonDelta { partial_json: chunks[i] },
            },
    )
}

/// The text of all pieces, in order.
pub open spec fn joined(chunks: Seq<String>) -> Seq<char>
    decreases chunks.len(),
{
    if chunks.len() == 0 {
        Seq::empty()
    } else {
        joined(chunks.drop_last()) + chunks.last()@
    }
}

pub open spec fn tool_start(index: usize, id: String, name: String) -> Event {
    Event::ContentBlockStart { index, content_block: ResponseContent::ToolUse { id, name } }
}

/// After argument pieces, the call at `index` holds their text after what it
/// held before.
pub proof fn lemma_argument_pieces_accumulate(s: MapperState, index: usize, chunks: Seq<String>)
    requires
        s.tools.contains_key(index),
    ensures
        feed(s, argument_deltas(index, chunks)).tools.contains_key(index),
        feed(s, argument_deltas(index, chunks)).tools[index] == (ToolAccumulator {
            input: s.tools[index].input + joined(chunks),
            ..s.tools[index]
        }),
    decreases chunks.len(),
{
    let evs = argument_deltas(index, chunks);
    if chunks.len() == 0 {
        assert(s.tools[index].input + joined(chunks) == s.tools[index].input);
    } else {
        lemma_argument_pieces_accumulate(s, index, chunks.drop_last());
        assert(evs.drop_last() == argument_deltas(index, chunks.drop_last()));
        let acc = s.tools[index];
        assert(acc.input + joined(chunks.drop_last()) + chunks.last()@ == acc.input + joined(
            chunks,
        ));
    }
}

/// However a tool call's argument text is cut into pieces, the stop of its
/// block gives exactly one event: the finished call with the same text and
/// the same parsed value, when the text is valid JSON.
pub proof fn lemma_tool_arguments_any_chunking(
    s: MapperState,
    index: usize,
    id: String,
    name: String,
    c1: Seq<String>,
    c2: Seq<String>,
    o1: Seq<Result<LanguageModelCompletionEvent, LanguageModelCompletionError>>,
    o2: Seq<Result<LanguageModelCompletionEvent, LanguageModelCompletionError>>,
)
    requires
        joined(c1) == joined(c2),
        final_arguments(joined(c1)) is Some,
        mapped_events(
            feed(next_state(s, tool_start(index, id, name)), argument_deltas(index, c1)),
            Event::ContentBlockStop { index },
            o1,
        ),
        mapped_events(
            feed(next_state(s, tool_start(index, id, name)), argument_deltas(index, c2)),
            Event::ContentBlockStop { index },
            o2,
        ),
    ensures
        o1.len() == 1,
        o2.len() == 1,
        o1[0] matches Ok(LanguageModelCompletionEvent::ToolUse(t1)) && o2[0] matches Ok(
            LanguageModelCompletionEvent::ToolUse(t2),
        ) && t1.is_input_complete && t2.is_input_complete && t1.input == t2.input && Some(t1.input)
            == final_arguments(joined(c1)) && t1.raw_input@ == joined(c1) && t2.raw_input@
            == joined(c1) && t1.id.0@ == id@ && t1.name@ == name@,
{
    let s1 = next_state(s, tool_start(index, id, name));
    lemma_argument_pieces_accumulate(s1, index, c1);
    lemma_argument_pieces_accumulate(s1, index, c2);
    assert(Seq::<char>::empty() + joined(c1) == joined(c1));
    assert(Seq::<char>::empty() + joined(c2) == joined(c2));
}

/// An argument piece never fails the stream: it gives nothing, or one
/// unfinished tool call with all text received so far.
pub proof fn lemma_argument_delta_never_fails(
    s: MapperState,
    index: usize,
    partial_json: String,
    out: Seq<Result<LanguageModelCompletionEvent, LanguageModelCompletionError>>,
)
    requires
        mapped_events(
            s,
            Event::ContentBlockDelta { index, delta: ContentDelta::InputJsonDelta { partial_json } },
            out,
        ),
    ensures
        out.len() <= 1,
        out.len() == 1 ==> (out[0] matches Ok(LanguageModelCompletionEvent::ToolUse(t))
            && !t.is_input_complete && s.tools.contains_key(index) && t.raw_input@
            == s.tools[index].input + partial_json@),
{
}

/// The stop of a tool call's block never fails the stream, whatever its
/// text: it gives one event, the finished call or its parse error.
pub proof fn lemma_block_stop_never_fails(
    s: MapperState,
    index: usize,
    out: Seq<Result<LanguageModelCompletionEvent, LanguageModelCompletionError>>,
)
    requires
        s.tools.contains_key(index),
        mapped_events(s, Event::ContentBlockStop { index }, out),
    ensures
        out.len() == 1,
        out[0] is Ok,
        final_arguments(s.tools[index].input) is None ==> out[0] matches Ok(
            LanguageModelCompletionEvent::ToolUseJsonParseError { .. },
        ),
        trim_seq(s.tools[index].input).len() == 0 ==> (out[0] matches Ok(
            LanguageModelCompletionEvent::ToolUse(t),
        ) && t.is_input_complete),
{
}

} // verus!
