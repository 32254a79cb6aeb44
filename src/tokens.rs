//! Token estimate of a request, with the GPT-4 tokenizer standing in for
//! the provider's own.
use crate::errors::anyhow_message;
use crate::types::{LanguageModelRequest, LanguageModelToolResultContent, MessageContent, Role};
use vstd::prelude::*;
use vstd::string::StringExecFns;
use vstd::utf8::encode_utf8;

verus! {

/// What the GPT-4 chat token count gives for `(role, content)` messages:
/// the count, or `None` when the tokenizer reports an error.
pub uninterp spec fn gpt4_chat_tokens(messages: Seq<(Seq<char>, Seq<char>)>) -> Option<nat>;

pub open spec fn pairs_view(v: Seq<(String, String)>) -> Seq<(Seq<char>, Seq<char>)> {
    Seq::new(v.len(), |i: int| (v[i].0@, v[i].1@))
}

/// The largest total that the token counter's `i32` accumulator holds.
pub const COUNTER_LIMIT: u64 = 2147483647;

/// A bound on the count: 3 per message and 3 more, plus one per byte of
/// each role and content, since every token covers at least one byte.
pub open spec fn chat_bytes(messages: Seq<(Seq<char>, Seq<char>)>) -> int
    decreases messages.len(),
{
    if messages.len() == 0 {
        3
    } else {
        chat_bytes(messages.drop_last()) + encode_utf8(messages.last().0).len() + encode_utf8(
            messages.last().1,
        ).len() + 3
    }
}

/// Relies on `tiktoken_rs::num_tokens_from_messages` with the `gpt-4`
/// tokenizer, each pair a message with that role and content. It sums into
/// an `i32`, so the bound keeps that sum from overflowing.
#[verifier::external_body]
fn count_chat_tokens(messages: &Vec<(String, String)>) -> (r: Result<usize, anyhow::Error>)
    requires
        chat_bytes(pairs_view(messages@)) <= COUNTER_LIMIT,
    ensures
        r matches Ok(n) ==> gpt4_chat_tokens(pairs_view(messages@)) == Some(n as nat),
        r is Err ==> gpt4_chat_tokens(pairs_view(messages@)) is None,
{
    let messages: Vec<tiktoken_rs::ChatCompletionRequestMessage> = messages
        .iter()
        .map(|(role, content)| tiktoken_rs::ChatCompletionRequestMessage {
            role: role.clone(),
            content: Some(content.clone()),
            ..Default::default()
        })
        .collect();
    tiktoken_rs::num_tokens_from_messages("gpt-4", &messages)
}

/// The text of the units that count as input: text and tool results;
/// thinking, images and tool calls do not.
pub open spec fn counted_text(c: Seq<MessageContent>) -> Seq<char>
    decreases c.len(),
{
    if c.len() == 0 {
        Seq::empty()
    } else {
        counted_text(c.drop_last()) + match c.last() {
            MessageContent::Text(t) => t@,
            MessageContent::ToolResult(r) => r.content.text_view(),
            _ => Seq::empty(),
        }
    }
}

pub open spec fn role_name(r: Role) -> Seq<char> {
    match r {
        Role::User => "user"@,
        Role::Assistant => "assistant"@,
        Role::System => "system"@,
    }
}

/// The messages that are counted: each request message with counted text,
/// as its role name and that text.
pub open spec fn counted_messages(
    msgs: Seq<crate::types::LanguageModelRequestMessage>,
    k: int,
) -> Seq<(Seq<char>, Seq<char>)>
    decreases k,
{
    if k <= 0 {
        Seq::empty()
    } else {
        let prev = counted_messages(msgs, k - 1);
        let t = counted_text(msgs[k - 1].content@);
        if t.len() == 0 {
            prev
        } else {
            prev.push((role_name(msgs[k - 1].role), t))
        }
    }
}

fn role_string(r: Role) -> (s: String)
    ensures
        s@ == role_name(r),
{
    match r {
        Role::User => String::from_str("user"),
        Role::Assistant => String::from_str("assistant"),
        Role::System => String::from_str("system"),
    }
}

/// Whether the counted messages fit the counter's bound.
fn within_counter_limit(messages: &Vec<(String, String)>) -> (r: bool)
    ensures
        r == (chat_bytes(pairs_view(messages@)) <= COUNTER_LIMIT),
{
    let ghost pv = pairs_view(messages@);
    let mut total: u64 = 3;
    let mut i: usize = 0;
    while i < messages.len()
        invariant
            i <= messages@.len(),
            pv == pairs_view(messages@),
            total == chat_bytes(pv.subrange(0, i as int)),
            total <= COUNTER_LIMIT,
        decreases messages@.len() - i,
    {
        assert(pv.subrange(0, i + 1).drop_last() == pv.subrange(0, i as int));
        let role_bytes = messages[i].0.as_str().as_bytes().len();
        let content_bytes = messages[i].1.as_str().as_bytes().len();
        if role_bytes as u64 > COUNTER_LIMIT - total {
            proof {
                lemma_chat_bytes_grows(pv, i + 1);
            }
            return false;
        }
        let t = total + role_bytes as u64;
        if content_bytes as u64 > COUNTER_LIMIT - t || COUNTER_LIMIT - t - (content_bytes as u64)
            < 3 {
            proof {
                lemma_chat_bytes_grows(pv, i + 1);
            }
            return false;
        }
        total = t + content_bytes as u64 + 3;
        i = i + 1;
    }
    assert(pv.subrange(0, messages@.len() as int) == pv);
    true
}

proof fn lemma_chat_bytes_grows(m: Seq<(Seq<char>, Seq<char>)>, i: int)
    requires
        0 <= i <= m.len(),
    ensures
        chat_bytes(m.subrange(0, i)) <= chat_bytes(m),
    decreases m.len() - i,
{
    if i < m.len() {
        lemma_chat_bytes_grows(m, i + 1);
        assert(m.subrange(0, i + 1).drop_last() == m.subrange(0, i));
    } else {
        assert(m.subrange(0, i) == m);
    }
}

/// Estimates the input tokens of a request with the GPT-4 tokenizer. A
/// request whose counted text could overflow the counter is refused.
pub fn count_anthropic_tokens(request: LanguageModelRequest) -> (r: Result<u64, anyhow::Error>)
    ensures
        chat_bytes(counted_messages(request.messages@, request.messages@.len() as int))
            > COUNTER_LIMIT ==> r is Err,
        r matches Ok(n) ==> gpt4_chat_tokens(
            counted_messages(request.messages@, request.messages@.len() as int),
        ) == Some(n as nat),
        r is Err ==> chat_bytes(
            counted_messages(request.messages@, request.messages@.len() as int),
        ) > COUNTER_LIMIT || gpt4_chat_tokens(
            counted_messages(request.messages@, request.messages@.len() as int),
        ) is None,
{
    let ghost msgs = request.messages@;
    let n: usize = request.messages.len();
    let mut string_messages: Vec<(String, String)> = Vec::new();
    let mut i: usize = 0;
    for message in it: request.messages.into_iter()
        invariant
            it.seq() == msgs,
            i == it.index(),
            msgs.len() == n,
            pairs_view(string_messages@) == counted_messages(msgs, i as int),
    {
        assert(i < n);
        assert(message == msgs[i as int]);
        let ghost c = message.content@;
        let m: usize = message.content.len();
        let role = message.role;
        let mut string_contents = String::new();
        let mut j: usize = 0;
        for content in jt: message.content.into_iter()
            invariant
                jt.seq() == c,
                j == jt.index(),
                c.len() == m,
                string_contents@ == counted_text(c.subrange(0, j as int)),
        {
            assert(j < m);
            assert(content == c[j as int]);
            assert(c.subrange(0, j + 1).drop_last() == c.subrange(0, j as int));
            match content {
                MessageContent::Text(text) => {
                    string_contents.append(text.as_str());
                },
                MessageContent::ToolResult(tool_result) => match tool_result.content {
                    LanguageModelToolResultContent::Text(text) => {
                        string_contents.append(text.as_str());
                    },
                },
                _ => {},
            }
            j = j + 1;
        }
        assert(c.subrange(0, c.len() as int) == c);
        if !string_contents.as_str().is_empty() {
            let ghost before = string_messages@;
            string_messages.push((role_string(role), string_contents));
            assert(pairs_view(string_messages@) =~= pairs_view(before).push(
                (role_name(role), counted_text(c)),
            ));
        }
        i = i + 1;
    }
    if !within_counter_limit(&string_messages) {
        return Err(anyhow_message(String::from_str("request too large to count its tokens")));
    }
    match count_chat_tokens(&string_messages) {
        Ok(tokens) => Ok(tokens as u64),
        Err(e) => Err(e),
    }
}

} // verus!
