//! The Anthropic messages protocol: request shapes, streaming events and
//! transport failures, with views that the builder's contracts speak of.
use vstd::prelude::*;

verus! {

/// The two roles of a message on this protocol.
#[derive(Clone, Copy, Debug, PartialEq, Eq, Hash, Structural)]
pub enum Role {
    User,
    Assistant,
}

#[derive(Clone, Copy, Debug, PartialEq, Eq, Hash, Structural)]
pub enum CacheControlType {
    Ephemeral,
}

/// Marks the block up to which the provider may cache the prompt.
#[derive(Clone, Copy, Debug, PartialEq, Eq, Hash, Structural)]
pub struct CacheControl {
    pub cache_type: CacheControlType,
}

#[derive(Clone, Debug, PartialEq, Eq, Hash)]
pub struct ImageSource {
    pub source_type: String,
    pub media_type: String,
    pub data: String,
}

#[derive(Clone, Debug, PartialEq, Eq, Hash)]
pub enum ToolResultContent {
    Plain(String),
}

/// One content block of a request message.
#[derive(Clone, Debug, PartialEq)]
pub enum RequestContent {
    Text { text: String, cache_control: Option<CacheControl> },
    Thinking { thinking: String, signature: String, cache_control: Option<CacheControl> },
    RedactedThinking { data: String },
    Image { source: ImageSource, cache_control: Option<CacheControl> },
    ToolUse {
        id: String,
        name: String,
        input: serde_json::Value,
        cache_control: Option<CacheControl>,
    },
    ToolResult {
        tool_use_id: String,
        is_error: bool,
        content: ToolResultContent,
        cache_control: Option<CacheControl>,
    },
}

/// A content block as values; `cached` tells whether it carries a cache
/// marker.
pub enum BlockView {
    Text { text: Seq<char>, cached: bool },
    Thinking { thinking: Seq<char>, signature: Seq<char>, cached: bool },
    RedactedThinking { data: Seq<char> },
    Image { source_type: Seq<char>, media_type: Seq<char>, data: Seq<char>, cached: bool },
    ToolUse { id: Seq<char>, name: Seq<char>, input: serde_json::Value, cached: bool },
    ToolResult { tool_use_id: Seq<char>, is_error: bool, content: Seq<char>, cached: bool },
}

impl View for RequestContent {
    type V = BlockView;

    open spec fn view(&self) -> BlockView {
        match self {
            RequestContent::Text { text, cache_control } => BlockView::Text {
                text: text@,
                cached: cache_control is Some,
            },
            RequestContent::Thinking { thinking, signature, cache_control } => BlockView::Thinking {
                thinking: thinking@,
                signature: signature@,
                cached: cache_control is Some,
            },
            RequestContent::RedactedThinking { data } => BlockView::RedactedThinking {
                data: data@,
            },
            RequestContent::Image { source, cache_control } => BlockView::Image {
                source_type: source.source_type@,
                media_type: source.media_type@,
                data: source.data@,
                cached: cache_control is Some,
            },
            RequestContent::ToolUse { id, name, input, cache_control } => BlockView::ToolUse {
                id: id@,
                name: name@,
                input: *input,
                cached: cache_control is Some,
            },
            RequestContent::ToolResult { tool_use_id, is_error, content, cache_control } =>
                BlockView::ToolResult {
                tool_use_id: tool_use_id@,
                is_error: *is_error,
                content: match content {
                    ToolResultContent::Plain(t) => t@,
                },
                cached: cache_control is Some,
            },
        }
    }
}

/// The blocks of a sequence, as values.
pub open spec fn blocks_view(v: Seq<RequestContent>) -> Seq<BlockView> {
    Seq::new(v.len(), |i: int| v[i]@)
}

/// One request message.
#[derive(Clone, Debug, PartialEq)]
pub struct Message {
    pub role: Role,
    pub content: Vec<RequestContent>,
}

pub struct MessageView {
    pub role: Role,
    pub content: Seq<BlockView>,
}

impl View for Message {
    type V = MessageView;

    open spec fn view(&self) -> MessageView {
        MessageView { role: self.role, content: blocks_view(self.content@) }
    }
}

/// The messages of a sequence, as values.
pub open spec fn messages_view(v: Seq<Message>) -> Seq<MessageView> {
    Seq::new(v.len(), |i: int| v[i]@)
}

/// A tool that the model may call.
#[derive(Clone, Debug, PartialEq)]
pub struct Tool {
    pub name: String,
    pub description: String,
    pub input_schema: serde_json::Value,
}

#[derive(Clone, Copy, Debug, PartialEq, Eq, Hash, Structural)]
pub enum ToolChoice {
    Auto,
    Any,
    /// Serialized as `none`.
    Disabled,
}

/// Extended thinking with an optional token budget.
#[derive(Clone, Copy, Debug, PartialEq, Eq, Hash, Structural)]
pub enum Thinking {
    Enabled { budget_tokens: Option<u32> },
}

/// Whether a model thinks before it answers.
#[derive(Clone, Copy, Debug, Default, PartialEq, Eq, Hash, Structural)]
pub enum AnthropicModelMode {
    #[default]
    Default,
    Thinking { budget_tokens: Option<u32> },
}

/// A request on the messages endpoint.
#[derive(Clone, Debug, PartialEq)]
pub struct Request {
    pub model: String,
    pub max_tokens: u64,
    pub messages: Vec<Message>,
    pub tools: Vec<Tool>,
    pub thinking: Option<Thinking>,
    pub tool_choice: Option<ToolChoice>,
    pub system: Option<String>,
    pub stop_sequences: Vec<String>,
    /// Sampling temperature in thousandths.
    pub temperature: Option<u32>,
}

/// Token counts as a streaming event reports them; a missing count is not
/// reported by that event.
#[derive(Clone, Copy, Debug, Default, PartialEq, Eq, Structural)]
pub struct Usage {
    pub input_tokens: Option<u64>,
    pub output_tokens: Option<u64>,
    pub cache_creation_input_tokens: Option<u64>,
    pub cache_read_input_tokens: Option<u64>,
}

/// The head of a response, sent when the message starts.
#[derive(Clone, Debug, PartialEq)]
pub struct Response {
    pub id: String,
    pub usage: Usage,
}

/// The kind of a content block that starts.
#[derive(Clone, Debug, PartialEq)]
pub enum ResponseContent {
    Text { text: String },
    Thinking { thinking: String },
    RedactedThinking { data: String },
    ToolUse { id: String, name: String },
}

/// A piece of a content block.
#[derive(Clone, Debug, PartialEq)]
pub enum ContentDelta {
    TextDelta { text: String },
    ThinkingDelta { thinking: String },
    SignatureDelta { signature: String },
    InputJsonDelta { partial_json: String },
}

#[derive(Clone, Debug, PartialEq)]
pub struct MessageDelta {
    pub stop_reason: Option<String>,
    pub stop_sequence: Option<String>,
}

/// An error that the provider reports, by its type name.
#[derive(Clone, Debug, PartialEq)]
pub struct ApiError {
    pub error_type: String,
    pub message: String,
}

/// One streaming event of the protocol.
#[derive(Clone, Debug, PartialEq)]
pub enum Event {
    MessageStart { message: Response },
    ContentBlockStart { index: usize, content_block: ResponseContent },
    ContentBlockDelta { index: usize, delta: ContentDelta },
    ContentBlockStop { index: usize },
    MessageDelta { delta: MessageDelta, usage: Usage },
    MessageStop,
    Ping,
    Error { error: ApiError },
}

/// A failure of the transport around the protocol.
#[derive(Debug)]
pub enum AnthropicError {
    SerializeRequest(serde_json::Error),
    BuildRequestBody(http::Error),
    HttpSend(anyhow::Error),
    DeserializeResponse(serde_json::Error),
    ReadResponse(std::io::Error),
    HttpResponseError { status_code: u16, message: String },
    /// `retry_after` in whole seconds.
    RateLimit { retry_after: u64 },
    ServerOverloaded { retry_after: Option<u64> },
    ApiError(ApiError),
}

} // verus!
