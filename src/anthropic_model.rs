//! Building Anthropic requests from provider-neutral ones.
use crate::anthropic::{
    self, blocks_view, messages_view, AnthropicModelMode, BlockView, CacheControl,
    CacheControlType, MessageView, RequestContent,
};
use crate::text::{lemma_trim_end_idempotent, trim_end_seq, trim_end_str};
use crate::types::{
    contents_text, LanguageModelRequest, LanguageModelRequestMessage, LanguageModelRequestTool,
    LanguageModelToolChoice, LanguageModelToolResultContent, MessageContent, Role,
};
use vstd::prelude::*;
use vstd::string::StringExecFns;

verus! {

/// The block that one content unit becomes, if any. A text loses its
/// trailing whitespace, and is left out when nothing remains.
pub open spec fn block_of(c: MessageContent) -> Option<BlockView> {
    match c {
        MessageContent::Text(t) => {
            let s = trim_end_seq(t@);
            if s.len() == 0 {
                None
            } else {
                Some(BlockView::Text { text: s, cached: false })
            }
        },
        MessageContent::Thinking { text, signature } => {
            if text@.len() == 0 {
                None
            } else {
                Some(
                    BlockView::Thinking {
                        thinking: text@,
                        signature: match signature {
                            Some(s) => s@,
                            None => Seq::empty(),
                        },
                        cached: false,
                    },
                )
            }
        },
        MessageContent::RedactedThinking(d) => {
            if d@.len() == 0 {
                None
            } else {
                Some(BlockView::RedactedThinking { data: d@ })
            }
        },
        MessageContent::Image(img) => Some(
            BlockView::Image {
                source_type: "base64"@,
                media_type: "image/png"@,
                data: img.source@,
                cached: false,
            },
        ),
        MessageContent::ToolUse(tu) => Some(
            BlockView::ToolUse { id: tu.id.0@, name: tu.name@, input: tu.input, cached: false },
        ),
        MessageContent::ToolResult(tr) => Some(
            BlockView::ToolResult {
                tool_use_id: tr.tool_use_id.0@,
                is_error: tr.is_error,
                content: tr.content.text_view(),
                cached: false,
            },
        ),
    }
}

pub open spec fn option_seq<T>(o: Option<T>) -> Seq<T> {
    match o {
        Some(x) => seq![x],
        None => Seq::empty(),
    }
}

/// The blocks of a unit sequence.
pub open spec fn blocks_of(c: Seq<MessageContent>) -> Seq<BlockView>
    decreases c.len(),
{
    if c.len() == 0 {
        Seq::empty()
    } else {
        blocks_of(c.drop_last()) + option_seq(block_of(c.last()))
    }
}

/// Every block but redacted thinking can carry a cache marker.
pub open spec fn cache_capable(b: BlockView) -> bool {
    !(b is RedactedThinking)
}

pub open spec fn with_marker(b: BlockView) -> BlockView {
    match b {
        BlockView::Text { text, .. } => BlockView::Text { text, cached: true },
        BlockView::Thinking { thinking, signature, .. } => BlockView::Thinking {
            thinking,
            signature,
            cached: true,
        },
        BlockView::RedactedThinking { data } => BlockView::RedactedThinking { data },
        BlockView::Image { source_type, media_type, data, .. } => BlockView::Image {
            source_type,
            media_type,
            data,
            cached: true,
        },
        BlockView::ToolUse { id, name, input, .. } => BlockView::ToolUse {
            id,
            name,
            input,
            cached: true,
        },
        BlockView::ToolResult { tool_use_id, is_error, content, .. } => BlockView::ToolResult {
            tool_use_id,
            is_error,
            content,
            cached: true,
        },
    }
}

/// Index of the last block that can carry a cache marker, or -1.
pub open spec fn last_cacheable(bs: Seq<BlockView>) -> int
    decreases bs.len(),
{
    if bs.len() == 0 {
        -1
    } else if cache_capable(bs.last()) {
        bs.len() - 1
    } else {
        last_cacheable(bs.drop_last())
    }
}

/// The blocks with a cache marker on the last block that can carry one.
pub open spec fn mark_cache(bs: Seq<BlockView>) -> Seq<BlockView> {
    let k = last_cacheable(bs);
    if k < 0 {
        bs
    } else {
        bs.update(k, with_marker(bs[k]))
    }
}

/// The blocks that message `i` contributes.
pub open spec fn message_blocks(msgs: Seq<LanguageModelRequestMessage>, i: int) -> Seq<BlockView> {
    let b = blocks_of(msgs[i].content@);
    if msgs[i].cache {
        mark_cache(b)
    } else {
        b
    }
}

pub open spec fn wire_role(r: Role) -> anthropic::Role {
    match r {
        Role::Assistant => anthropic::Role::Assistant,
        _ => anthropic::Role::User,
    }
}

/// A message that reaches the message list: not empty, not a system message.
pub open spec fn is_conversational(m: LanguageModelRequestMessage) -> bool {
    !m.spec_contents_empty() && m.role != Role::System
}

/// The request messages that the first `k` messages give: empty and system
/// messages left out, neighbours of one role merged.
pub open spec fn wire_messages(msgs: Seq<LanguageModelRequestMessage>, k: int) -> Seq<MessageView>
    decreases k,
{
    if k <= 0 {
        Seq::empty()
    } else {
        let prev = wire_messages(msgs, k - 1);
        let m = msgs[k - 1];
        if !is_conversational(m) {
            prev
        } else {
            let role = wire_role(m.role);
            let b = message_blocks(msgs, k - 1);
            if prev.len() > 0 && prev.last().role == role {
                prev.update(
                    prev.len() - 1,
                    MessageView { role, content: prev.last().content + b },
                )
            } else {
                prev.push(MessageView { role, content: b })
            }
        }
    }
}

/// The system prompt that the first `k` messages give: the text of each
/// non-empty system message, joined by a blank line.
pub open spec fn system_prompt(msgs: Seq<LanguageModelRequestMessage>, k: int) -> Seq<char>
    decreases k,
{
    if k <= 0 {
        Seq::empty()
    } else {
        let prev = system_prompt(msgs, k - 1);
        let m = msgs[k - 1];
        if m.spec_contents_empty() || m.role != Role::System {
            prev
        } else if prev.len() == 0 {
            contents_text(m.content@)
        } else {
            prev + "\n\n"@ + contents_text(m.content@)
        }
    }
}

fn to_request_content(content: MessageContent) -> (r: Option<RequestContent>)
    ensures
        r matches Some(b) ==> block_of(content) == Some(b@),
        r is None ==> block_of(content) is None,
{
    match content {
        MessageContent::Text(text) => {
            let text = String::from_str(trim_end_str(text.as_str()));
            if !text.as_str().is_empty() {
                Some(RequestContent::Text { text, cache_control: None })
            } else {
                None
            }
        },
        MessageContent::Thinking { text, signature } => {
            if !text.as_str().is_empty() {
                let signature = match signature {
                    Some(s) => s,
                    None => String::new(),
                };
                Some(RequestContent::Thinking { thinking: text, signature, cache_control: None })
            } else {
                None
            }
        },
        MessageContent::RedactedThinking(data) => {
            if !data.as_str().is_empty() {
                Some(RequestContent::RedactedThinking { data })
            } else {
                None
            }
        },
        MessageContent::Image(image) => Some(
            RequestContent::Image {
                source: anthropic::ImageSource {
                    source_type: String::from_str("base64"),
                    media_type: String::from_str("image/png"),
                    data: image.source,
                },
                cache_control: None,
            },
        ),
        MessageContent::ToolUse(tool_use) => Some(
            RequestContent::ToolUse {
                id: tool_use.id.0,
                name: tool_use.name,
                input: tool_use.input,
                cache_control: None,
            },
        ),
        MessageContent::ToolResult(tool_result) => Some(
            RequestContent::ToolResult {
                tool_use_id: tool_result.tool_use_id.0,
                is_error: tool_result.is_error,
                content: match tool_result.content {
                    LanguageModelToolResultContent::Text(text) => anthropic::ToolResultContent::Plain(
                        text,
                    ),
                },
                cache_control: None,
            },
        ),
    }
}

fn set_cache_marker(b: RequestContent) -> (r: RequestContent)
    ensures
        r@ == with_marker(b@),
{
    let marker = Some(CacheControl { cache_type: CacheControlType::Ephemeral });
    match b {
        RequestContent::Text { text, .. } => RequestContent::Text { text, cache_control: marker },
        RequestContent::Thinking { thinking, signature, .. } => RequestContent::Thinking {
            thinking,
            signature,
            cache_control: marker,
        },
        RequestContent::RedactedThinking { data } => RequestContent::RedactedThinking { data },
        RequestContent::Image { source, .. } => RequestContent::Image {
            source,
            cache_control: marker,
        },
        RequestContent::ToolUse { id, name, input, .. } => RequestContent::ToolUse {
            id,
            name,
            input,
            cache_control: marker,
        },
        RequestContent::ToolResult { tool_use_id, is_error, content, .. } =>
            RequestContent::ToolResult { tool_use_id, is_error, content, cache_control: marker },
    }
}

/// Puts the cache marker on the last block that can carry one.
fn mark_last_cacheable(blocks: &mut Vec<RequestContent>)
    ensures
        blocks_view(final(blocks)@) == mark_cache(blocks_view(old(blocks)@)),
{
    let ghost bv = blocks_view(blocks@);
    let mut i: usize = blocks.len();
    assert(bv.subrange(0, i as int) == bv);
    while i > 0
        invariant
            i <= blocks@.len(),
            bv == blocks_view(blocks@),
            bv == blocks_view(old(blocks)@),
            last_cacheable(bv) == last_cacheable(bv.subrange(0, i as int)),
        decreases i,
    {
        assert(bv.subrange(0, i as int).drop_last() == bv.subrange(0, i - 1));
        assert(bv.subrange(0, i as int).last() == bv[i - 1]);
        assert(bv[i - 1] == blocks@[i - 1]@);
        if !matches!(blocks[i - 1], RequestContent::RedactedThinking { .. }) {
            let b = blocks.remove(i - 1);
            let b = set_cache_marker(b);
            blocks.insert(i - 1, b);
            assert(blocks_view(blocks@) =~= bv.update(i - 1, with_marker(bv[i - 1])));
            assert(last_cacheable(bv) == i - 1);
            return;
        }
        i = i - 1;
    }
    assert(bv.subrange(0, 0).len() == 0);
}

/// The blocks of one message's units, in order.
fn message_content_blocks(content: Vec<MessageContent>) -> (r: Vec<RequestContent>)
    ensures
        blocks_view(r@) == blocks_of(content@),
{
    let ghost c = content@;
    let n: usize = content.len();
    let mut blocks: Vec<RequestContent> = Vec::new();
    let mut j: usize = 0;
    for unit in it: content.into_iter()
        invariant
            it.seq() == c,
            j == it.index(),
            c.len() == n,
            blocks_view(blocks@) == blocks_of(c.subrange(0, j as int)),
    {
        assert(j < n);
        assert(unit == c[j as int]);
        assert(c.subrange(0, j + 1).drop_last() == c.subrange(0, j as int));
        assert(c.subrange(0, j + 1).last() == c[j as int]);
        let ghost before = blocks@;
        if let Some(b) = to_request_content(unit) {
            blocks.push(b);
            assert(blocks_view(blocks@) =~= blocks_view(before) + seq![b@]);
        }
        j = j + 1;
    }
    assert(c.subrange(0, c.len() as int) == c);
    blocks
}

/// The wire form of a tool declaration: the same three fields.
pub open spec fn tool_kept(w: anthropic::Tool, t: LanguageModelRequestTool) -> bool {
    w.name == t.name && w.description == t.description && w.input_schema == t.input_schema
}

pub open spec fn anthropic_tool_choice(c: LanguageModelToolChoice) -> anthropic::ToolChoice {
    match c {
        LanguageModelToolChoice::Auto => anthropic::ToolChoice::Auto,
        LanguageModelToolChoice::Any => anthropic::ToolChoice::Any,
        LanguageModelToolChoice::Disabled => anthropic::ToolChoice::Disabled,
    }
}

/// Thinking is switched on only when the request allows it and the mode
/// asks for it.
pub open spec fn thinking_config(allowed: bool, mode: AnthropicModelMode) -> Option<
    anthropic::Thinking,
> {
    match mode {
        AnthropicModelMode::Thinking { budget_tokens } => if allowed {
            Some(anthropic::Thinking::Enabled { budget_tokens })
        } else {
            None
        },
        AnthropicModelMode::Default => None,
    }
}

/// Builds the Anthropic request for `request`. Empty messages are dropped,
/// system messages become the system prompt, every text unit loses its
/// trailing whitespace and is left out when nothing remains, a cache hint marks the message's
/// last block that can carry a marker, and neighbours of one role are merged.
pub fn into_anthropic(
    request: LanguageModelRequest,
    model: String,
    default_temperature: u32,
    max_output_tokens: u64,
    mode: AnthropicModelMode,
) -> (r: anthropic::Request)
    ensures
        r.model == model,
        r.max_tokens == max_output_tokens,
        messages_view(r.messages@) == wire_messages(
            request.messages@,
            request.messages@.len() as int,
        ),
        r.system is None <==> system_prompt(
            request.messages@,
            request.messages@.len() as int,
        ).len() == 0,
        r.system matches Some(s) ==> s@ == system_prompt(
            request.messages@,
            request.messages@.len() as int,
        ),
        r.thinking == thinking_config(request.thinking_allowed, mode),
        r.tools@.len() == request.tools@.len(),
        forall|i: int| 0 <= i < r.tools@.len() ==> tool_kept(r.tools@[i], request.tools@[i]),
        r.tool_choice == match request.tool_choice {
            Some(c) => Some(anthropic_tool_choice(c)),
            None => None,
        },
        r.stop_sequences@.len() == 0,
        r.temperature == Some(
            match request.temperature {
                Some(t) => t,
                None => default_temperature,
            },
        ),
{
    let ghost msgs = request.messages@;
    let n: usize = request.messages.len();
    let mut new_messages: Vec<anthropic::Message> = Vec::new();
    let mut system_message = String::new();
    let mut i: usize = 0;
    for message in it: request.messages.into_iter()
        invariant
            it.seq() == msgs,
            i == it.index(),
            msgs.len() == n,
            messages_view(new_messages@) == wire_messages(msgs, i as int),
            system_message@ == system_prompt(msgs, i as int),
    {
        assert(i < n);
        assert(message == msgs[i as int]);
        let ghost prev = wire_messages(msgs, i as int);
        if !message.contents_empty() {
            match message.role {
                Role::System => {
                    if !system_message.as_str().is_empty() {
                        system_message.append("\n\n");
                    }
                    let text = message.string_contents();
                    system_message.append(text.as_str());
                },
                _ => {
                    let role = match message.role {
                        Role::Assistant => anthropic::Role::Assistant,
                        _ => anthropic::Role::User,
                    };
                    let cache = message.cache;
                    let mut blocks = message_content_blocks(message.content);
                    if cache {
                        mark_last_cacheable(&mut blocks);
                    }
                    assert(blocks_view(blocks@) == message_blocks(msgs, i as int));
                    let len = new_messages.len();
                    if len > 0 && new_messages[len - 1].role == role {
                        assert(prev.last().role == new_messages@[len - 1].role);
                        let last = new_messages.pop();
                        match last {
                            Some(mut last) => {
                                let ghost old_content = last.content@;
                                let ghost added = blocks@;
                                last.content.append(&mut blocks);
                                assert(blocks_view(last.content@) =~= blocks_view(old_content)
                                    + blocks_view(added));
                                new_messages.push(last);
                            },
                            None => {},
                        }
                        assert(messages_view(new_messages@) =~= prev.update(
                            prev.len() - 1,
                            MessageView { role, content: prev.last().content + message_blocks(
                                msgs,
                                i as int,
                            ) },
                        ));
                    } else {
                        new_messages.push(anthropic::Message { role, content: blocks });
                        assert(messages_view(new_messages@) =~= prev.push(
                            MessageView { role, content: message_blocks(msgs, i as int) },
                        ));
                    }
                },
            }
        }
        i = i + 1;
    }
    let ghost tools_in = request.tools@;
    let mut tools: Vec<anthropic::Tool> = Vec::new();
    for tool in tit: request.tools.into_iter()
        invariant
            tit.seq() == tools_in,
            tools@.len() == tit.index(),
            forall|k: int| 0 <= k < tools@.len() ==> tool_kept(tools@[k], tools_in[k]),
    {
        assert(tool == tools_in[tools@.len() as int]);
        tools.push(
            anthropic::Tool {
                name: tool.name,
                description: tool.description,
                input_schema: tool.input_schema,
            },
        );
    }
    let system = if system_message.as_str().is_empty() {
        None
    } else {
        Some(system_message)
    };
    let thinking = match mode {
        AnthropicModelMode::Thinking { budget_tokens } => if request.thinking_allowed {
            Some(anthropic::Thinking::Enabled { budget_tokens })
        } else {
            None
        },
        AnthropicModelMode::Default => None,
    };
    let tool_choice = match request.tool_choice {
        Some(LanguageModelToolChoice::Auto) => Some(anthropic::ToolChoice::Auto),
        Some(LanguageModelToolChoice::Any) => Some(anthropic::ToolChoice::Any),
        Some(LanguageModelToolChoice::Disabled) => Some(anthropic::ToolChoice::Disabled),
        None => None,
    };
    let temperature = match request.temperature {
        Some(t) => t,
        None => default_temperature,
    };
    anthropic::Request {
        model,
        max_tokens: max_output_tokens,
        messages: new_messages,
        tools,
        thinking,
        tool_choice,
        system,
        stop_sequences: Vec::new(),
        temperature: Some(temperature),
    }
}

/// Two neighbouring messages of one role, neither empty, become one wire
/// message whose blocks are those of the first followed by those of the
/// second.
pub proof fn lemma_same_role_neighbours_merge(msgs: Seq<LanguageModelRequestMessage>, k: int)
    requires
        2 <= k <= msgs.len(),
        is_conversational(msgs[k - 2]),
        is_conversational(msgs[k - 1]),
        msgs[k - 2].role == msgs[k - 1].role,
    ensures
        wire_messages(msgs, k).len() == wire_messages(msgs, k - 1).len(),
        wire_messages(msgs, k).last() == (MessageView {
            role: wire_role(msgs[k - 1].role),
            content: wire_messages(msgs, k - 1).last().content + message_blocks(msgs, k - 1),
        }),
        wire_messages(msgs, k - 1).last().role == wire_role(msgs[k - 2].role),
{
    lemma_last_wire_message(msgs, k - 1);
}

/// After a message that reaches the list, the last wire message has its
/// role.
pub proof fn lemma_last_wire_message(msgs: Seq<LanguageModelRequestMessage>, k: int)
    requires
        1 <= k <= msgs.len(),
        is_conversational(msgs[k - 1]),
    ensures
        wire_messages(msgs, k).len() > 0,
        wire_messages(msgs, k).last().role == wire_role(msgs[k - 1].role),
{
}

/// Whether a block carries a cache marker.
pub open spec fn is_cached(b: BlockView) -> bool {
    match b {
        BlockView::Text { cached, .. } => cached,
        BlockView::Thinking { cached, .. } => cached,
        BlockView::RedactedThinking { .. } => false,
        BlockView::Image { cached, .. } => cached,
        BlockView::ToolUse { cached, .. } => cached,
        BlockView::ToolResult { cached, .. } => cached,
    }
}

proof fn lemma_last_cacheable_is_last(bs: Seq<BlockView>)
    ensures
        -1 <= last_cacheable(bs) < bs.len(),
        last_cacheable(bs) >= 0 ==> cache_capable(bs[last_cacheable(bs)]),
        forall|j: int| last_cacheable(bs) < j < bs.len() ==> !cache_capable(#[trigger] bs[j]),
    decreases bs.len(),
{
    if bs.len() > 0 && !cache_capable(bs.last()) {
        lemma_last_cacheable_is_last(bs.drop_last());
        assert forall|j: int| last_cacheable(bs) < j < bs.len() implies !cache_capable(
            #[trigger] bs[j],
        ) by {
            if j < bs.len() - 1 {
                assert(bs[j] == bs.drop_last()[j]);
            }
        }
    }
}

/// With a cache hint, the marker lands on exactly one block: the last block
/// that can carry one, so never on redacted thinking; every later block is
/// redacted thinking, and the other blocks stay as they were. Without such a
/// block nothing is marked.
pub proof fn lemma_cache_marker_placement(bs: Seq<BlockView>)
    requires
        forall|i: int| 0 <= i < bs.len() ==> !is_cached(#[trigger] bs[i]),
    ensures
        mark_cache(bs).len() == bs.len(),
        last_cacheable(bs) >= 0 ==> {
            let k = last_cacheable(bs);
            &&& !(bs[k] is RedactedThinking)
            &&& is_cached(mark_cache(bs)[k])
            &&& forall|j: int| k < j < bs.len() ==> (#[trigger] bs[j]) is RedactedThinking
            &&& forall|j: int| 0 <= j < bs.len() && j != k ==> #[trigger] mark_cache(bs)[j] == bs[j]
        },
        last_cacheable(bs) < 0 ==> mark_cache(bs) == bs && forall|j: int|
            0 <= j < bs.len() ==> (#[trigger] bs[j]) is RedactedThinking,
        forall|j: int| 0 <= j < bs.len() && #[trigger] is_cached(mark_cache(bs)[j]) ==> j
            == last_cacheable(bs),
{
    lemma_last_cacheable_is_last(bs);
}

/// The blocks that content units give carry no cache marker yet, so the
/// placement law above applies to every message's blocks.
pub proof fn lemma_fresh_blocks_uncached(c: Seq<MessageContent>)
    ensures
        forall|i: int| 0 <= i < blocks_of(c).len() ==> !is_cached(#[trigger] blocks_of(c)[i]),
    decreases c.len(),
{
    if c.len() > 0 {
        lemma_fresh_blocks_uncached(c.drop_last());
        let prev = blocks_of(c.drop_last());
        let all = blocks_of(c);
        assert forall|i: int| 0 <= i < all.len() implies !is_cached(#[trigger] all[i]) by {
            if i < prev.len() {
                assert(all[i] == prev[i]);
            }
        }
    }
}

/// Every text block of the request ends in no whitespace and is not empty,
/// so trimming it once more changes nothing.
pub proof fn lemma_text_blocks_trimmed(c: Seq<MessageContent>)
    ensures
        forall|i: int|
            0 <= i < blocks_of(c).len() && (#[trigger] blocks_of(c)[i]) is Text ==> {
                let t = blocks_of(c)[i]->Text_text;
                &&& t.len() > 0
                &&& trim_end_seq(t) == t
            },
    decreases c.len(),
{
    if c.len() > 0 {
        lemma_text_blocks_trimmed(c.drop_last());
        let prev = blocks_of(c.drop_last());
        let all = blocks_of(c);
        if let MessageContent::Text(t) = c.last() {
            lemma_trim_end_idempotent(t@);
        }
        assert forall|i: int| 0 <= i < all.len() && (#[trigger] all[i]) is Text implies ({
            let t = all[i]->Text_text;
            &&& t.len() > 0
            &&& trim_end_seq(t) == t
        }) by {
            if i < prev.len() {
                assert(all[i] == prev[i]);
            }
        }
    }
}

proof fn lemma_drop_empty_prefix(msgs: Seq<LanguageModelRequestMessage>, j: int, k: int)
    requires
        0 <= j < msgs.len(),
        msgs[j].spec_contents_empty(),
        0 <= k <= msgs.len(),
    ensures
        k <= j ==> wire_messages(msgs.remove(j), k) == wire_messages(msgs, k) && system_prompt(
            msgs.remove(j),
            k,
        ) == system_prompt(msgs, k),
        k > j ==> wire_messages(msgs.remove(j), k - 1) == wire_messages(msgs, k) && system_prompt(
            msgs.remove(j),
            k - 1,
        ) == system_prompt(msgs, k),
    decreases k,
{
    let r = msgs.remove(j);
    if k > 0 {
        lemma_drop_empty_prefix(msgs, j, k - 1);
        if k <= j {
            assert(r[k - 1] == msgs[k - 1]);
            assert(message_blocks(r, k - 1) == message_blocks(msgs, k - 1));
        } else if k > j + 1 {
            assert(r[k - 2] == msgs[k - 1]);
            assert(message_blocks(r, k - 2) == message_blocks(msgs, k - 1));
        }
    }
}

/// A message whose units are all empty changes nothing: the request without
/// it has the same wire messages and the same system prompt.
pub proof fn lemma_empty_message_changes_nothing(msgs: Seq<LanguageModelRequestMessage>, j: int)
    requires
        0 <= j < msgs.len(),
        msgs[j].spec_contents_empty(),
    ensures
        wire_messages(msgs.remove(j), msgs.len() - 1) == wire_messages(msgs, msgs.len() as int),
        system_prompt(msgs.remove(j), msgs.len() - 1) == system_prompt(msgs, msgs.len() as int),
{
    lemma_drop_empty_prefix(msgs, j, msgs.len() as int);
}

} // verus!
