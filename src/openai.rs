//! The OpenAI chat-completions protocol: request shapes and their views.
use vstd::prelude::*;

verus! {

#[derive(Clone, Debug, PartialEq, Eq, Hash)]
pub struct ImageUrl {
    pub url: String,
    pub detail: Option<String>,
}

/// One part of a message's content.
#[derive(Clone, Debug, PartialEq, Eq, Hash)]
pub enum MessagePart {
    Text { text: String },
    Image { image_url: ImageUrl },
}

pub enum PartView {
    Text { text: Seq<char> },
    Image { url: Seq<char>, detail: Option<Seq<char>> },
}

impl View for MessagePart {
    type V = PartView;

    open spec fn view(&self) -> PartView {
        match self {
            MessagePart::Text { text } => PartView::Text { text: text@ },
            MessagePart::Image { image_url } => PartView::Image {
                url: image_url.url@,
                detail: match &image_url.detail {
                    Some(d) => Some(d@),
                    None => None,
                },
            },
        }
    }
}

pub open spec fn parts_view(v: Seq<MessagePart>) -> Seq<PartView> {
    Seq::new(v.len(), |i: int| v[i]@)
}

#[derive(Clone, Debug, PartialEq, Eq, Hash)]
pub struct FunctionContent {
    pub name: String,
    pub arguments: String,
}

/// A call of a function tool by the assistant.
#[derive(Clone, Debug, PartialEq, Eq, Hash)]
pub struct ToolCall {
    pub id: String,
    pub function: FunctionContent,
}

pub struct ToolCallView {
    pub id: Seq<char>,
    pub name: Seq<char>,
    pub arguments: Seq<char>,
}

impl View for ToolCall {
    type V = ToolCallView;

    open spec fn view(&self) -> ToolCallView {
        ToolCallView { id: self.id@, name: self.function.name@, arguments: self.function.arguments@ }
    }
}

pub open spec fn calls_view(v: Seq<ToolCall>) -> Seq<ToolCallView> {
    Seq::new(v.len(), |i: int| v[i]@)
}

/// One message of a chat request.
#[derive(Clone, Debug, PartialEq, Eq, Hash)]
pub enum RequestMessage {
    Assistant { content: Option<Vec<MessagePart>>, tool_calls: Vec<ToolCall> },
    User { content: Vec<MessagePart> },
    System { content: Vec<MessagePart> },
    Tool { content: Vec<MessagePart>, tool_call_id: String },
}

pub enum RequestMessageView {
    Assistant { content: Option<Seq<PartView>>, tool_calls: Seq<ToolCallView> },
    User { content: Seq<PartView> },
    System { content: Seq<PartView> },
    Tool { content: Seq<PartView>, tool_call_id: Seq<char> },
}

impl View for RequestMessage {
    type V = RequestMessageView;

    open spec fn view(&self) -> RequestMessageView {
        match self {
            RequestMessage::Assistant { content, tool_calls } => RequestMessageView::Assistant {
                content: match content {
                    Some(c) => Some(parts_view(c@)),
                    None => None,
                },
                tool_calls: calls_view(tool_calls@),
            },
            RequestMessage::User { content } => RequestMessageView::User {
                content: parts_view(content@),
            },
            RequestMessage::System { content } => RequestMessageView::System {
                content: parts_view(content@),
            },
            RequestMessage::Tool { content, tool_call_id } => RequestMessageView::Tool {
                content: parts_view(content@),
                tool_call_id: tool_call_id@,
            },
        }
    }
}

pub open spec fn request_messages_view(v: Seq<RequestMessage>) -> Seq<RequestMessageView> {
    Seq::new(v.len(), |i: int| v[i]@)
}

/// A function tool offered to the model.
#[derive(Clone, Debug, PartialEq)]
pub struct ToolDefinition {
    pub name: String,
    pub description: Option<String>,
    pub parameters: Option<serde_json::Value>,
}

#[derive(Clone, Copy, Debug, PartialEq, Eq, Hash, Structural)]
pub enum ToolChoice {
    Auto,
    Required,
    /// Serialized as `none`.
    Disabled,
}

/// A chat-completions request.
#[derive(Clone, Debug, PartialEq)]
pub struct Request {
    pub model: String,
    pub messages: Vec<RequestMessage>,
    pub stream: bool,
    pub max_completion_tokens: Option<u64>,
    pub stop: Vec<String>,
    /// Sampling temperature in thousandths.
    pub temperature: u32,
    pub tool_choice: Option<ToolChoice>,
    pub parallel_tool_calls: Option<bool>,
    pub tools: Vec<ToolDefinition>,
}

} // verus!
