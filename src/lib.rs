//! Provider-neutral completion requests and streaming events, with request
//! builders and a streaming event mapper for two wire protocols.

pub mod anthropic;
pub mod anthropic_events;
pub mod anthropic_model;
pub mod errors;
pub mod json;
pub mod model;
pub mod openai;
pub mod openai_model;
pub mod providers;
pub mod text;
pub mod tokens;
pub mod tool;
pub mod types;
pub mod utils;

pub use anthropic_events::{convert_usage, update_usage, AnthropicEventMapper};
pub use anthropic_model::into_anthropic;
pub use errors::LanguageModelCompletionError;
pub use model::{LanguageModel, LanguageModelExt};
pub use openai_model::{add_message_content_part, into_open_ai};
pub use providers::{
    AnthropicLanguageModelProvider, AnthropicModel, AnthropicSettings, ModelMode,
    OpenAiLanguageModel, OpenAiLanguageModelProvider, OpenAiSettings,
};
pub use tool::{ToolResultContent, ToolSource, ToolUseStatus};
pub use types::{
    CompletionIntent, CompletionMode, CompletionRequestStatus, LanguageModelCompletionEvent,
    LanguageModelId, LanguageModelImage, LanguageModelName, LanguageModelProviderId,
    LanguageModelProviderName, LanguageModelRequest, LanguageModelRequestMessage,
    LanguageModelRequestTool, LanguageModelToolChoice, LanguageModelToolResult,
    LanguageModelToolResultContent, LanguageModelToolSchemaFormat, LanguageModelToolUse,
    LanguageModelToolUseId, MessageContent, Role, StopReason, TokenUsage, UsageLimit,
};
pub use tokens::count_anthropic_tokens;
pub use utils::{post_inc, truncate_lines_to_byte_limit, truncate_to_byte_limit};
