//! Building OpenAI chat requests from provider-neutral ones.
use crate::anthropic_model::{is_conversational, system_prompt};
use crate::json::{json_text, json_to_string};
use crate::openai::{
    self, calls_view, parts_view, request_messages_view, MessagePart, PartView, RequestMessage,
    RequestMessageView, ToolCallView,
};
use crate::text::{trim_end_seq, trim_end_str};
use crate::types::{
    data_url_prefix, LanguageModelRequest, LanguageModelRequestMessage, LanguageModelRequestTool,
    LanguageModelToolChoice, LanguageModelToolResultContent, MessageContent, Role,
};
use vstd::prelude::*;
use vstd::string::StringExecFns;

verus! {

/// Index of the last `Text` unit of `c`, or -1 when there is none.
pub open spec fn last_text_index(c: Seq<MessageContent>) -> int
    decreases c.len(),
{
    if c.len() == 0 {
        -1
    } else if c.last() is Text {
        c.len() - 1
    } else {
        last_text_index(c.drop_last())
    }
}

/// Index of the last of the first `k` messages that reaches the chat as a
/// non-system message, or -1.
pub open spec fn last_kept_below(msgs: Seq<LanguageModelRequestMessage>, k: int) -> int
    decreases k,
{
    if k <= 0 {
        -1
    } else if is_conversational(msgs[k - 1]) {
        k - 1
    } else {
        last_kept_below(msgs, k - 1)
    }
}

/// The unit of message `i` whose trailing whitespace is trimmed: the last
/// text unit of the last message that the chat keeps, -1 for the others.
pub open spec fn trim_index(msgs: Seq<LanguageModelRequestMessage>, i: int) -> int {
    if i == last_kept_below(msgs, msgs.len() as int) {
        last_text_index(msgs[i].content@)
    } else {
        -1
    }
}

/// Position of the last `Text` unit.
fn last_text_position(c: &Vec<MessageContent>) -> (r: Option<usize>)
    ensures
        r matches Some(k) ==> last_text_index(c@) == k,
        r is None ==> last_text_index(c@) == -1,
{
    let mut i: usize = c.len();
    assert(c@.subrange(0, i as int) == c@);
    while i > 0
        invariant
            i <= c@.len(),
            last_text_index(c@) == last_text_index(c@.subrange(0, i as int)),
        decreases i,
    {
        assert(c@.subrange(0, i as int).drop_last() == c@.subrange(0, i - 1));
        assert(c@.subrange(0, i as int).last() == c@[i - 1]);
        if matches!(c[i - 1], MessageContent::Text(_)) {
            return Some(i - 1);
        }
        i = i - 1;
    }
    None
}

/// Position of the last message that the chat keeps as a non-system message.
fn last_kept_position(msgs: &Vec<LanguageModelRequestMessage>) -> (r: Option<usize>)
    ensures
        r matches Some(k) ==> last_kept_below(msgs@, msgs@.len() as int) == k,
        r is None ==> last_kept_below(msgs@, msgs@.len() as int) == -1,
{
    let mut i: usize = msgs.len();
    while i > 0
        invariant
            i <= msgs@.len(),
            last_kept_below(msgs@, msgs@.len() as int) == last_kept_below(msgs@, i as int),
        decreases i,
    {
        if !msgs[i - 1].contents_empty() && msgs[i - 1].role != Role::System {
            return Some(i - 1);
        }
        i = i - 1;
    }
    None
}

/// The last message takes the part when it has the part's role and can
/// hold content parts.
pub open spec fn takes_part(m: RequestMessageView, role: Role) -> bool {
    match m {
        RequestMessageView::User { .. } => role == Role::User,
        RequestMessageView::Assistant { content, .. } => role == Role::Assistant && content is Some,
        RequestMessageView::System { .. } => role == Role::System,
        RequestMessageView::Tool { .. } => false,
    }
}

pub open spec fn with_part(m: RequestMessageView, part: PartView) -> RequestMessageView {
    match m {
        RequestMessageView::User { content } => RequestMessageView::User {
            content: content.push(part),
        },
        RequestMessageView::Assistant { content, tool_calls } => RequestMessageView::Assistant {
            content: match content {
                Some(c) => Some(c.push(part)),
                None => None,
            },
            tool_calls,
        },
        RequestMessageView::System { content } => RequestMessageView::System {
            content: content.push(part),
        },
        RequestMessageView::Tool { content, tool_call_id } => RequestMessageView::Tool {
            content,
            tool_call_id,
        },
    }
}

/// A new message of `role` that holds only `part`.
pub open spec fn message_with_part(role: Role, part: PartView) -> RequestMessageView {
    match role {
        Role::User => RequestMessageView::User { content: seq![part] },
        Role::Assistant => RequestMessageView::Assistant {
            content: Some(seq![part]),
            tool_calls: Seq::empty(),
        },
        Role::System => RequestMessageView::System { content: seq![part] },
    }
}

/// The messages after adding a content part of `role`: appended to the last
/// message when it takes it, else in a new message.
pub open spec fn add_part(
    msgs: Seq<RequestMessageView>,
    part: PartView,
    role: Role,
) -> Seq<RequestMessageView> {
    if msgs.len() > 0 && takes_part(msgs.last(), role) {
        msgs.update(msgs.len() - 1, with_part(msgs.last(), part))
    } else {
        msgs.push(message_with_part(role, part))
    }
}

/// The messages after adding a tool call: appended to the last message when
/// it is the assistant's, else in a new assistant message without content.
pub open spec fn add_tool_call(
    msgs: Seq<RequestMessageView>,
    call: ToolCallView,
) -> Seq<RequestMessageView> {
    if msgs.len() > 0 && msgs.last() is Assistant {
        msgs.update(
            msgs.len() - 1,
            match msgs.last() {
                RequestMessageView::Assistant { content, tool_calls } =>
                    RequestMessageView::Assistant { content, tool_calls: tool_calls.push(call) },
                m => m,
            },
        )
    } else {
        msgs.push(RequestMessageView::Assistant { content: None, tool_calls: seq![call] })
    }
}

/// The messages after one content unit of a message of `role`.
pub open spec fn unit_step(
    msgs: Seq<RequestMessageView>,
    c: MessageContent,
    role: Role,
    trim: bool,
) -> Seq<RequestMessageView> {
    match c {
        MessageContent::Text(t) => add_part(
            msgs,
            PartView::Text {
                text: if trim {
                    trim_end_seq(t@)
                } else {
                    t@
                },
            },
            role,
        ),
        MessageContent::Thinking { text, .. } => add_part(msgs, PartView::Text { text: text@ }, role),
        MessageContent::RedactedThinking(_) => msgs,
        MessageContent::Image(img) => add_part(
            msgs,
            PartView::Image { url: data_url_prefix() + img.source@, detail: None },
            role,
        ),
        MessageContent::ToolUse(tu) => add_tool_call(
            msgs,
            ToolCallView { id: tu.id.0@, name: tu.name@, arguments: json_text(tu.input) },
        ),
        MessageContent::ToolResult(tr) => msgs.push(
            RequestMessageView::Tool {
                content: seq![PartView::Text { text: tr.content.text_view() }],
                tool_call_id: tr.tool_use_id.0@,
            },
        ),
    }
}

/// The messages after the units of one message, the unit at `trim_at`
/// trimmed at its end.
pub open spec fn units_step(
    msgs: Seq<RequestMessageView>,
    cs: Seq<MessageContent>,
    role: Role,
    trim_at: int,
) -> Seq<RequestMessageView>
    decreases cs.len(),
{
    if cs.len() == 0 {
        msgs
    } else {
        unit_step(units_step(msgs, cs.drop_last(), role, trim_at), cs.last(), role, cs.len() - 1 == trim_at)
    }
}

/// The chat messages that the first `k` request messages give, before the
/// system prompt: empty and system messages are left out.
pub open spec fn chat_messages(msgs: Seq<LanguageModelRequestMessage>, k: int) -> Seq<
    RequestMessageView,
>
    decreases k,
{
    if k <= 0 {
        Seq::empty()
    } else {
        let prev = chat_messages(msgs, k - 1);
        let m = msgs[k - 1];
        if m.spec_contents_empty() || m.role == Role::System {
            prev
        } else {
            units_step(prev, m.content@, m.role, trim_index(msgs, k - 1))
        }
    }
}

/// The whole chat: one system message with the system prompt first, when
/// there is a prompt, then the other messages.
pub open spec fn chat_with_system(msgs: Seq<LanguageModelRequestMessage>) -> Seq<
    RequestMessageView,
> {
    let prompt = system_prompt(msgs, msgs.len() as int);
    let rest = chat_messages(msgs, msgs.len() as int);
    if prompt.len() == 0 {
        rest
    } else {
        seq![RequestMessageView::System { content: seq![PartView::Text { text: prompt }] }] + rest
    }
}

/// Adds a content part of `role` to the chat, merging it into the last
/// message where that message takes it.
pub fn add_message_content_part(new_part: MessagePart, role: Role, messages: &mut Vec<RequestMessage>)
    ensures
        request_messages_view(final(messages)@) == add_part(
            request_messages_view(old(messages)@),
            new_part@,
            role,
        ),
{
    let ghost before = request_messages_view(messages@);
    let len = messages.len();
    if len > 0 {
        let takes = match (&messages[len - 1], role) {
            (RequestMessage::User { .. }, Role::User) => true,
            (RequestMessage::Assistant { content: Some(_), .. }, Role::Assistant) => true,
            (RequestMessage::System { .. }, Role::System) => true,
            _ => false,
        };
        assert(before.last() == messages@[len - 1]@);
        assert(takes == takes_part(before.last(), role));
        if takes {
            let last = messages.pop();
            if let Some(last) = last {
                let ghost lv = last@;
                assert(lv == before.last());
                let updated = match last {
                    RequestMessage::User { mut content } => {
                        let ghost c0 = content@;
                        assert(lv == RequestMessageView::User { content: parts_view(c0) });
                        content.push(new_part);
                        assert(parts_view(content@) =~= parts_view(c0).push(new_part@));
                        let u = RequestMessage::User { content };
                        assert(u@ == with_part(lv, new_part@));
                        u
                    },
                    RequestMessage::Assistant { content, tool_calls } => {
                        let content = match content {
                            Some(mut c) => {
                                let ghost c0 = c@;
                                c.push(new_part);
                                assert(parts_view(c@) =~= parts_view(c0).push(new_part@));
                                Some(c)
                            },
                            None => None,
                        };
                        let a = RequestMessage::Assistant { content, tool_calls };
                        assert(a@ == with_part(lv, new_part@));
                        a
                    },
                    RequestMessage::System { mut content } => {
                        let ghost c0 = content@;
                        content.push(new_part);
                        assert(parts_view(content@) =~= parts_view(c0).push(new_part@));
                        RequestMessage::System { content }
                    },
                    other => other,
                };
                assert(updated@ == with_part(lv, new_part@));
                messages.push(updated);
                assert(request_messages_view(messages@) =~= before.update(
                    before.len() - 1,
                    with_part(before.last(), new_part@),
                ));
            }
            return;
        }
    }
    let fresh = match role {
        Role::User => {
            let mut content = Vec::new();
            content.push(new_part);
            assert(parts_view(content@) =~= seq![new_part@]);
            RequestMessage::User { content }
        },
        Role::Assistant => {
            let mut content = Vec::new();
            content.push(new_part);
            assert(parts_view(content@) =~= seq![new_part@]);
            let tool_calls: Vec<openai::ToolCall> = Vec::new();
            assert(calls_view(tool_calls@) =~= Seq::empty());
            RequestMessage::Assistant { content: Some(content), tool_calls }
        },
        Role::System => {
            let mut content = Vec::new();
            content.push(new_part);
            assert(parts_view(content@) =~= seq![new_part@]);
            RequestMessage::System { content }
        },
    };
    messages.push(fresh);
    assert(request_messages_view(messages@) =~= before.push(message_with_part(role, new_part@)));
}

fn add_tool_call_message(call: openai::ToolCall, messages: &mut Vec<RequestMessage>)
    ensures
        request_messages_view(final(messages)@) == add_tool_call(
            request_messages_view(old(messages)@),
            call@,
        ),
{
    let ghost before = request_messages_view(messages@);
    let len = messages.len();
    if len > 0 && matches!(messages[len - 1], RequestMessage::Assistant { .. }) {
        assert(before.last() == messages@[len - 1]@);
        if let Some(last) = messages.pop() {
            let updated = match last {
                RequestMessage::Assistant { content, mut tool_calls } => {
                    let ghost t0 = tool_calls@;
                    tool_calls.push(call);
                    assert(calls_view(tool_calls@) =~= calls_view(t0).push(call@));
                    RequestMessage::Assistant { content, tool_calls }
                },
                other => other,
            };
            messages.push(updated);
            assert(request_messages_view(messages@) =~= add_tool_call(before, call@));
        }
    } else {
        let mut tool_calls = Vec::new();
        tool_calls.push(call);
        assert(calls_view(tool_calls@) =~= seq![call@]);
        messages.push(RequestMessage::Assistant { content: None, tool_calls });
        assert(request_messages_view(messages@) =~= add_tool_call(before, call@));
    }
}

/// Adds one content unit of a message of `role` to the chat.
fn add_unit(content: MessageContent, role: Role, trim: bool, messages: &mut Vec<RequestMessage>)
    ensures
        request_messages_view(final(messages)@) == unit_step(
            request_messages_view(old(messages)@),
            content,
            role,
            trim,
        ),
{
    match content {
        MessageContent::Text(text) => {
            let text = if trim {
                String::from_str(trim_end_str(text.as_str()))
            } else {
                text
            };
            add_message_content_part(MessagePart::Text { text }, role, messages);
        },
        MessageContent::Thinking { text, .. } => {
            add_message_content_part(MessagePart::Text { text }, role, messages);
        },
        MessageContent::RedactedThinking(_) => {},
        MessageContent::Image(image) => {
            let url = image.to_base64_url();
            add_message_content_part(
                MessagePart::Image { image_url: openai::ImageUrl { url, detail: None } },
                role,
                messages,
            );
        },
        MessageContent::ToolUse(tool_use) => {
            let arguments = json_to_string(&tool_use.input);
            let call = openai::ToolCall {
                id: tool_use.id.0,
                function: openai::FunctionContent { name: tool_use.name, arguments },
            };
            add_tool_call_message(call, messages);
        },
        MessageContent::ToolResult(tool_result) => {
            let ghost before = request_messages_view(messages@);
            let text = match tool_result.content {
                LanguageModelToolResultContent::Text(text) => text,
            };
            let mut parts = Vec::new();
            parts.push(MessagePart::Text { text });
            assert(parts_view(parts@) =~= seq![PartView::Text { text: text@ }]);
            messages.push(
                RequestMessage::Tool { content: parts, tool_call_id: tool_result.tool_use_id.0 },
            );
            assert(request_messages_view(messages@) =~= unit_step(before, content, role, trim));
        },
    }
}

pub open spec fn starts_with_o1(s: Seq<char>) -> bool {
    s.len() >= 3 && s.subrange(0, 3) == "o1-"@
}

pub open spec fn open_ai_tool_choice(c: LanguageModelToolChoice) -> openai::ToolChoice {
    match c {
        LanguageModelToolChoice::Auto => openai::ToolChoice::Auto,
        LanguageModelToolChoice::Any => openai::ToolChoice::Required,
        LanguageModelToolChoice::Disabled => openai::ToolChoice::Disabled,
    }
}

/// The function definition of a tool declaration: its name, with its
/// description and schema.
pub open spec fn tool_defined(w: openai::ToolDefinition, t: LanguageModelRequestTool) -> bool {
    w.name == t.name && w.description == Some(t.description) && w.parameters == Some(
        t.input_schema,
    )
}

/// Builds the OpenAI chat request for `request`. Empty messages are dropped,
/// system messages become one leading system message whose text joins
/// theirs by a blank line, the last text unit of the last message kept
/// loses its trailing whitespace,
/// content parts join the last message where it has their role, tool calls
/// join the last assistant message, and tool results become tool messages.
pub fn into_open_ai(
    request: LanguageModelRequest,
    model_id: &str,
    supports_parallel_tool_calls: bool,
    max_output_tokens: Option<u64>,
) -> (r: openai::Request)
    ensures
        r.model@ == model_id@,
        r.stream == !starts_with_o1(model_id@),
        request_messages_view(r.messages@) == chat_with_system(request.messages@),
        r.stop == request.stop,
        r.temperature == match request.temperature {
            Some(t) => t,
            None => 1000,
        },
        r.max_completion_tokens == max_output_tokens,
        r.parallel_tool_calls == if supports_parallel_tool_calls && request.tools@.len() > 0 {
            Some(false)
        } else {
            None
        },
        r.tools@.len() == request.tools@.len(),
        forall|i: int| 0 <= i < r.tools@.len() ==> tool_defined(r.tools@[i], request.tools@[i]),
        r.tool_choice == match request.tool_choice {
            Some(c) => Some(open_ai_tool_choice(c)),
            None => None,
        },
{
    proof {
        reveal_strlit("o1-");
    }
    let stream = if model_id.unicode_len() >= 3 {
        let head = String::from_str(model_id.substring_char(0, 3));
        !(head == String::from_str("o1-"))
    } else {
        true
    };
    let ghost msgs = request.messages@;
    let n: usize = request.messages.len();
    let kept = last_kept_position(&request.messages);
    let mut messages: Vec<RequestMessage> = Vec::new();
    let mut system_message = String::new();
    let mut i: usize = 0;
    for message in it: request.messages.into_iter()
        invariant
            it.seq() == msgs,
            i == it.index(),
            msgs.len() == n,
            request_messages_view(messages@) == chat_messages(msgs, i as int),
            system_message@ == system_prompt(msgs, i as int),
            kept matches Some(k) ==> last_kept_below(msgs, n as int) == k,
            kept is None ==> last_kept_below(msgs, n as int) == -1,
    {
        assert(i < n);
        assert(message == msgs[i as int]);
        if message.contents_empty() {
        } else if message.role == Role::System {
            if !system_message.as_str().is_empty() {
                system_message.append("\n\n");
            }
            let text = message.string_contents();
            system_message.append(text.as_str());
        } else {
            let role = message.role;
            let is_last_kept = match kept {
                Some(k) => k == i,
                None => false,
            };
            let (trim, trim_at) = if is_last_kept {
                match last_text_position(&message.content) {
                    Some(k) => (true, k),
                    None => (false, 0),
                }
            } else {
                (false, 0)
            };
            let ghost t = trim_index(msgs, i as int);
            assert((if trim {
                trim_at as int
            } else {
                -1
            }) == t);
            let ghost c = message.content@;
            let ghost start = request_messages_view(messages@);
            let m: usize = message.content.len();
            let mut j: usize = 0;
            for unit in jt: message.content.into_iter()
                invariant
                    jt.seq() == c,
                    j == jt.index(),
                    c.len() == m,
                    t == if trim {
                        trim_at as int
                    } else {
                        -1
                    },
                    request_messages_view(messages@) == units_step(
                        start,
                        c.subrange(0, j as int),
                        role,
                        t,
                    ),
            {
                assert(j < m);
                assert(unit == c[j as int]);
                assert(c.subrange(0, j + 1).drop_last() == c.subrange(0, j as int));
                assert(c.subrange(0, j + 1).last() == c[j as int]);
                add_unit(unit, role, trim && j == trim_at, &mut messages);
                j = j + 1;
            }
            assert(c.subrange(0, c.len() as int) == c);
        }
        i = i + 1;
    }
    if !system_message.as_str().is_empty() {
        let ghost rest = messages@;
        let mut parts = Vec::new();
        parts.push(MessagePart::Text { text: system_message });
        assert(parts_view(parts@) =~= seq![PartView::Text { text: system_prompt(msgs, n as int) }]);
        messages.insert(0, RequestMessage::System { content: parts });
        assert(request_messages_view(messages@) =~= chat_with_system(msgs));
    }
    let ghost tools_in = request.tools@;
    let parallel_tool_calls = if supports_parallel_tool_calls && request.tools.len() > 0 {
        Some(false)
    } else {
        None
    };
    let mut tools: Vec<openai::ToolDefinition> = Vec::new();
    for tool in tit: request.tools.into_iter()
        invariant
            tit.seq() == tools_in,
            tools@.len() == tit.index(),
            forall|k: int| 0 <= k < tools@.len() ==> tool_defined(tools@[k], tools_in[k]),
    {
        assert(tool == tools_in[tools@.len() as int]);
        tools.push(
            openai::ToolDefinition {
                name: tool.name,
                description: Some(tool.description),
                parameters: Some(tool.input_schema),
            },
        );
    }
    let tool_choice = match request.tool_choice {
        Some(LanguageModelToolChoice::Auto) => Some(openai::ToolChoice::Auto),
        Some(LanguageModelToolChoice::Any) => Some(openai::ToolChoice::Required),
        Some(LanguageModelToolChoice::Disabled) => Some(openai::ToolChoice::Disabled),
        None => None,
    };
    let temperature = match request.temperature {
        Some(t) => t,
        None => 1000,
    };
    openai::Request {
        model: String::from_str(model_id),
        messages,
        stream,
        max_completion_tokens: max_output_tokens,
        stop: request.stop,
        temperature,
        tool_choice,
        parallel_tool_calls,
        tools,
    }
}

/// Every unit is text.
pub open spec fn all_text(cs: Seq<MessageContent>) -> bool {
    forall|i: int| 0 <= i < cs.len() ==> (#[trigger] cs[i]) is Text
}

/// The text parts that text units give, the unit at `trim_at` trimmed.
pub open spec fn text_parts(cs: Seq<MessageContent>, trim_at: int) -> Seq<PartView>
    decreases cs.len(),
{
    if cs.len() == 0 {
        Seq::empty()
    } else {
        text_parts(cs.drop_last(), trim_at).push(
            PartView::Text {
                text: match cs.last() {
                    MessageContent::Text(t) => if cs.len() - 1 == trim_at {
                        trim_end_seq(t@)
                    } else {
                        t@
                    },
                    _ => Seq::empty(),
                },
            },
        )
    }
}

/// The message with `ps` after its content parts.
pub open spec fn with_parts(m: RequestMessageView, ps: Seq<PartView>) -> RequestMessageView {
    match m {
        RequestMessageView::User { content } => RequestMessageView::User { content: content + ps },
        RequestMessageView::Assistant { content, tool_calls } => RequestMessageView::Assistant {
            content: match content {
                Some(c) => Some(c + ps),
                None => None,
            },
            tool_calls,
        },
        _ => m,
    }
}

proof fn lemma_text_units_join(
    msgs: Seq<RequestMessageView>,
    cs: Seq<MessageContent>,
    role: Role,
    trim_at: int,
)
    requires
        all_text(cs),
        role == Role::User || role == Role::Assistant,
        msgs.len() > 0,
        takes_part(msgs.last(), role),
    ensures
        units_step(msgs, cs, role, trim_at) == msgs.update(
            msgs.len() - 1,
            with_parts(msgs.last(), text_parts(cs, trim_at)),
        ),
    decreases cs.len(),
{
    let m = msgs.last();
    if cs.len() == 0 {
        assert(text_parts(cs, trim_at) =~= Seq::<PartView>::empty());
        match m {
            RequestMessageView::User { content } => {
                assert(content + Seq::<PartView>::empty() == content);
            },
            RequestMessageView::Assistant { content, .. } => {
                assert(content->0 + Seq::<PartView>::empty() == content->0);
            },
            _ => {},
        }
        assert(msgs.update(msgs.len() - 1, m) == msgs);
    } else {
        assert(all_text(cs.drop_last())) by {
            assert forall|i: int| 0 <= i < cs.drop_last().len() implies (
            #[trigger] cs.drop_last()[i]) is Text by {
                assert(cs.drop_last()[i] == cs[i]);
            }
        }
        lemma_text_units_join(msgs, cs.drop_last(), role, trim_at);
        assert(cs[cs.len() - 1] is Text);
        let prev = text_parts(cs.drop_last(), trim_at);
        let p = text_parts(cs, trim_at).last();
        assert(text_parts(cs, trim_at) == prev.push(p));
        match m {
            RequestMessageView::User { content } => {
                assert((content + prev).push(p) == content + prev.push(p));
            },
            RequestMessageView::Assistant { content, .. } => {
                assert((content->0 + prev).push(p) == content->0 + prev.push(p));
            },
            _ => {},
        }
    }
}

proof fn lemma_text_units_end_taking(
    msgs: Seq<RequestMessageView>,
    cs: Seq<MessageContent>,
    role: Role,
    trim_at: int,
)
    requires
        all_text(cs),
        cs.len() > 0,
        role == Role::User || role == Role::Assistant,
    ensures
        units_step(msgs, cs, role, trim_at).len() > 0,
        takes_part(units_step(msgs, cs, role, trim_at).last(), role),
{
    assert(cs.last() is Text);
}

/// Two neighbouring text messages of one role, user or assistant, neither
/// empty, become one chat message whose parts are those of the first
/// followed by those of the second.
pub proof fn lemma_text_neighbours_merge(msgs: Seq<LanguageModelRequestMessage>, k: int)
    requires
        2 <= k <= msgs.len(),
        msgs[k - 1].role == Role::User || msgs[k - 1].role == Role::Assistant,
        msgs[k - 2].role == msgs[k - 1].role,
        !msgs[k - 2].spec_contents_empty(),
        !msgs[k - 1].spec_contents_empty(),
        all_text(msgs[k - 2].content@),
        all_text(msgs[k - 1].content@),
    ensures
        chat_messages(msgs, k).len() == chat_messages(msgs, k - 1).len(),
        chat_messages(msgs, k).last() == with_parts(
            chat_messages(msgs, k - 1).last(),
            text_parts(msgs[k - 1].content@, trim_index(msgs, k - 1)),
        ),
        takes_part(chat_messages(msgs, k - 1).last(), msgs[k - 1].role),
{
    let role = msgs[k - 1].role;
    lemma_text_units_end_taking(
        chat_messages(msgs, k - 2),
        msgs[k - 2].content@,
        role,
        trim_index(msgs, k - 2),
    );
    lemma_text_units_join(
        chat_messages(msgs, k - 1),
        msgs[k - 1].content@,
        role,
        trim_index(msgs, k - 1),
    );
}

proof fn lemma_last_kept_shift(msgs: Seq<LanguageModelRequestMessage>, j: int, k: int)
    requires
        0 <= j < msgs.len(),
        msgs[j].spec_contents_empty(),
        0 <= k <= msgs.len(),
    ensures
        last_kept_below(msgs, k) != j,
        -1 <= last_kept_below(msgs, k) < k,
        k <= j ==> last_kept_below(msgs.remove(j), k) == last_kept_below(msgs, k),
        k > j ==> last_kept_below(msgs.remove(j), k - 1) == if last_kept_below(msgs, k) > j {
            last_kept_below(msgs, k) - 1
        } else {
            last_kept_below(msgs, k)
        },
    decreases k,
{
    let r = msgs.remove(j);
    if k > 0 {
        lemma_last_kept_shift(msgs, j, k - 1);
        if k <= j {
            assert(r[k - 1] == msgs[k - 1]);
        } else if k > j + 1 {
            assert(r[k - 2] == msgs[k - 1]);
        }
    }
}

proof fn lemma_chat_drop_empty_prefix(msgs: Seq<LanguageModelRequestMessage>, j: int, k: int)
    requires
        0 <= j < msgs.len(),
        msgs[j].spec_contents_empty(),
        0 <= k <= msgs.len(),
    ensures
        k <= j ==> chat_messages(msgs.remove(j), k) == chat_messages(msgs, k) && system_prompt(
            msgs.remove(j),
            k,
        ) == system_prompt(msgs, k),
        k > j ==> chat_messages(msgs.remove(j), k - 1) == chat_messages(msgs, k) && system_prompt(
            msgs.remove(j),
            k - 1,
        ) == system_prompt(msgs, k),
    decreases k,
{
    let r = msgs.remove(j);
    let n = msgs.len() as int;
    lemma_last_kept_shift(msgs, j, n);
    if k > 0 {
        lemma_chat_drop_empty_prefix(msgs, j, k - 1);
        if k <= j {
            assert(r[k - 1] == msgs[k - 1]);
            assert(trim_index(r, k - 1) == trim_index(msgs, k - 1));
        } else if k > j + 1 {
            assert(r[k - 2] == msgs[k - 1]);
            assert(trim_index(r, k - 2) == trim_index(msgs, k - 1));
        }
    }
}

/// A message whose units are all empty changes nothing: the chat of the
/// request without it is the same, the trim included.
pub proof fn lemma_chat_empty_message_changes_nothing(
    msgs: Seq<LanguageModelRequestMessage>,
    j: int,
)
    requires
        0 <= j < msgs.len(),
        msgs[j].spec_contents_empty(),
    ensures
        chat_with_system(msgs.remove(j)) == chat_with_system(msgs),
{
    lemma_chat_drop_empty_prefix(msgs, j, msgs.len() as int);
}

} // verus!
