//! The two providers and their models: configuration held as plain values,
//! and the step from a neutral request to the provider's request.
use crate::anthropic::{self, messages_view, AnthropicModelMode};
use crate::anthropic_model::{
    anthropic_tool_choice, into_anthropic, system_prompt, thinking_config, tool_kept, wire_messages,
};
use crate::openai::{self, request_messages_view};
use crate::openai_model::{
    chat_with_system, into_open_ai, open_ai_tool_choice, starts_with_o1, tool_defined,
};
use crate::model::LanguageModel;
use crate::types::{
    anthropic_provider_name, open_ai_provider_name, LanguageModelId, LanguageModelName,
    LanguageModelProviderId, LanguageModelProviderName, LanguageModelRequest,
    LanguageModelToolSchemaFormat,
};
use vstd::prelude::*;

verus! {

/// Where and how to reach the Anthropic API.
#[derive(Clone, Debug, Default, PartialEq)]
pub struct AnthropicSettings {
    pub api_url: String,
    pub api_key: String,
}

/// Where and how to reach the OpenAI API.
#[derive(Clone, Debug, Default, PartialEq)]
pub struct OpenAiSettings {
    pub api_url: String,
    pub api_key: String,
}

/// A model's thinking mode as configured.
#[derive(Clone, Copy, Debug, Default, PartialEq, Eq, Structural)]
pub enum ModelMode {
    #[default]
    Default,
    Thinking { budget_tokens: Option<u32> },
}

pub open spec fn mode_to_anthropic(m: ModelMode) -> AnthropicModelMode {
    match m {
        ModelMode::Default => AnthropicModelMode::Default,
        ModelMode::Thinking { budget_tokens } => AnthropicModelMode::Thinking { budget_tokens },
    }
}

pub open spec fn mode_from_anthropic(m: AnthropicModelMode) -> ModelMode {
    match m {
        AnthropicModelMode::Default => ModelMode::Default,
        AnthropicModelMode::Thinking { budget_tokens } => ModelMode::Thinking { budget_tokens },
    }
}

impl From<ModelMode> for AnthropicModelMode {
    fn from(value: ModelMode) -> (r: Self) {
        match value {
            ModelMode::Default => AnthropicModelMode::Default,
            ModelMode::Thinking { budget_tokens } => AnthropicModelMode::Thinking { budget_tokens },
        }
    }
}

impl vstd::std_specs::convert::FromSpecImpl<ModelMode> for AnthropicModelMode {
    open spec fn obeys_from_spec() -> bool {
        true
    }

    open spec fn from_spec(v: ModelMode) -> Self {
        mode_to_anthropic(v)
    }
}

impl From<AnthropicModelMode> for ModelMode {
    fn from(value: AnthropicModelMode) -> (r: Self) {
        match value {
            AnthropicModelMode::Default => ModelMode::Default,
            AnthropicModelMode::Thinking { budget_tokens } => ModelMode::Thinking { budget_tokens },
        }
    }
}

impl vstd::std_specs::convert::FromSpecImpl<AnthropicModelMode> for ModelMode {
    open spec fn obeys_from_spec() -> bool {
        true
    }

    open spec fn from_spec(v: AnthropicModelMode) -> Self {
        mode_from_anthropic(v)
    }
}

/// The Anthropic provider over a transport `C`.
pub struct AnthropicLanguageModelProvider<C> {
    pub http_client: C,
}

impl<C> AnthropicLanguageModelProvider<C> {
    pub fn new(http_client: C) -> (r: Self)
        ensures
            r.http_client == http_client,
    {
        AnthropicLanguageModelProvider { http_client }
    }

    pub fn id(&self) -> (r: LanguageModelProviderId)
        ensures
            r.0@ == "anthropic"@,
    {
        LanguageModelProviderId::new("anthropic")
    }

    pub fn name(&self) -> (r: LanguageModelProviderName)
        ensures
            r.0@ == anthropic_provider_name(),
    {
        LanguageModelProviderName::new("Anthropic")
    }
}

/// An Anthropic model: what the request builder needs to know of it.
pub struct AnthropicModel {
    pub id: LanguageModelId,
    pub display_name: String,
    /// The context window in tokens.
    pub max_tokens: u64,
    /// The model name sent in requests.
    pub request_id: String,
    pub max_output_tokens: u64,
    /// Sampling temperature in thousandths, used when a request sets none.
    pub default_temperature: u32,
    pub mode: AnthropicModelMode,
}

impl AnthropicModel {
    /// The Anthropic request for `request` on this model.
    pub fn build_request(&self, request: LanguageModelRequest) -> (r: anthropic::Request)
        ensures
            r.model@ == self.request_id@,
            r.max_tokens == self.max_output_tokens,
            messages_view(r.messages@) == wire_messages(
                request.messages@,
                request.messages@.len() as int,
            ),
            r.system matches Some(s) ==> s@ == system_prompt(
                request.messages@,
                request.messages@.len() as int,
            ),
            r.system is None <==> system_prompt(
                request.messages@,
                request.messages@.len() as int,
            ).len() == 0,
            r.thinking == thinking_config(request.thinking_allowed, self.mode),
            r.tools@.len() == request.tools@.len(),
            forall|i: int| 0 <= i < r.tools@.len() ==> tool_kept(r.tools@[i], request.tools@[i]),
            r.tool_choice == match request.tool_choice {
                Some(c) => Some(anthropic_tool_choice(c)),
                None => None,
            },
            r.stop_sequences@.len() == 0,
            r.temperature == Some(
                match request.temperature {
                    Some(t) => t,
                    None => self.default_temperature,
                },
            ),
    {
        into_anthropic(
            request,
            self.request_id.clone(),
            self.default_temperature,
            self.max_output_tokens,
            self.mode,
        )
    }
}

/// The OpenAI provider over a transport `C`.
pub struct OpenAiLanguageModelProvider<C> {
    pub http_client: C,
}

impl<C> OpenAiLanguageModelProvider<C> {
    pub fn new(client: C) -> (r: Self)
        ensures
            r.http_client == client,
    {
        OpenAiLanguageModelProvider { http_client: client }
    }

    pub fn id(&self) -> (r: LanguageModelProviderId)
        ensures
            r.0@ == "openai"@,
    {
        LanguageModelProviderId::new("openai")
    }

    pub fn name(&self) -> (r: LanguageModelProviderName)
        ensures
            r.0@ == open_ai_provider_name(),
    {
        LanguageModelProviderName::new("OpenAI")
    }
}

/// An OpenAI model: what the request builder needs to know of it.
pub struct OpenAiLanguageModel {
    pub id: LanguageModelId,
    pub display_name: String,
    /// The context window in tokens.
    pub max_tokens: u64,
    /// The model name sent in requests.
    pub model_id: String,
    pub max_output_tokens: Option<u64>,
    pub supports_parallel_tool_calls: bool,
}

impl OpenAiLanguageModel {
    /// The chat request for `request` on this model.
    pub fn build_request(&self, request: LanguageModelRequest) -> (r: openai::Request)
        ensures
            r.model@ == self.model_id@,
            r.max_completion_tokens == self.max_output_tokens,
            request_messages_view(r.messages@) == chat_with_system(request.messages@),
            r.stream == !starts_with_o1(self.model_id@),
            r.stop == request.stop,
            r.temperature == match request.temperature {
                Some(t) => t,
                None => 1000,
            },
            r.parallel_tool_calls == if self.supports_parallel_tool_calls && request.tools@.len()
                > 0 {
                Some(false)
            } else {
                None
            },
            r.tools@.len() == request.tools@.len(),
            forall|i: int| 0 <= i < r.tools@.len() ==> tool_defined(r.tools@[i], request.tools@[i]),
            r.tool_choice == match request.tool_choice {
                Some(c) => Some(open_ai_tool_choice(c)),
                None => None,
            },
    {
        into_open_ai(
            request,
            self.model_id.as_str(),
            self.supports_parallel_tool_calls,
            self.max_output_tokens,
        )
    }
}

impl LanguageModel for AnthropicModel {
    open spec fn spec_id(&self) -> Seq<char> {
        self.id.0@
    }

    open spec fn spec_name(&self) -> Seq<char> {
        self.display_name@
    }

    open spec fn spec_provider_id(&self) -> Seq<char> {
        "anthropic"@
    }

    open spec fn spec_provider_name(&self) -> Seq<char> {
        "Anthropic"@
    }

    open spec fn spec_max_output_tokens(&self) -> Option<u64> {
        Some(self.max_output_tokens)
    }

    open spec fn spec_tool_input_format(&self) -> LanguageModelToolSchemaFormat {
        LanguageModelToolSchemaFormat::JsonSchema
    }

    open spec fn spec_supports_tools(&self) -> bool {
        true
    }

    open spec fn spec_supports_burn_mode(&self) -> bool {
        true
    }

    open spec fn spec_max_token_count(&self) -> u64 {
        self.max_tokens
    }

    open spec fn spec_max_token_count_in_burn_mode(&self) -> Option<u64> {
        None
    }

    fn id(&self) -> (r: LanguageModelId) {
        LanguageModelId(self.id.0.clone())
    }

    fn name(&self) -> (r: LanguageModelName) {
        LanguageModelName(self.display_name.clone())
    }

    fn provider_id(&self) -> (r: LanguageModelProviderId) {
        LanguageModelProviderId::new("anthropic")
    }

    fn provider_name(&self) -> (r: LanguageModelProviderName) {
        LanguageModelProviderName::new("Anthropic")
    }

    fn max_token_count(&self) -> (r: u64) {
        self.max_tokens
    }

    fn max_output_tokens(&self) -> (r: Option<u64>) {
        Some(self.max_output_tokens)
    }

    fn tool_input_format(&self) -> (r: LanguageModelToolSchemaFormat) {
        LanguageModelToolSchemaFormat::JsonSchema
    }

    fn supports_tools(&self) -> (r: bool) {
        true
    }

    fn supports_burn_mode(&self) -> (r: bool) {
        true
    }

    fn max_token_count_in_burn_mode(&self) -> (r: Option<u64>) {
        None
    }
}

impl LanguageModel for OpenAiLanguageModel {
    open spec fn spec_id(&self) -> Seq<char> {
        self.id.0@
    }

    open spec fn spec_name(&self) -> Seq<char> {
        self.display_name@
    }

    open spec fn spec_provider_id(&self) -> Seq<char> {
        "openai"@
    }

    open spec fn spec_provider_name(&self) -> Seq<char> {
        "OpenAI"@
    }

    open spec fn spec_max_output_tokens(&self) -> Option<u64> {
        self.max_output_tokens
    }

    open spec fn spec_tool_input_format(&self) -> LanguageModelToolSchemaFormat {
        LanguageModelToolSchemaFormat::JsonSchema
    }

    open spec fn spec_supports_tools(&self) -> bool {
        true
    }

    open spec fn spec_supports_burn_mode(&self) -> bool {
        false
    }

    open spec fn spec_max_token_count(&self) -> u64 {
        self.max_tokens
    }

    open spec fn spec_max_token_count_in_burn_mode(&self) -> Option<u64> {
        None
    }

    fn id(&self) -> (r: LanguageModelId) {
        LanguageModelId(self.id.0.clone())
    }

    fn name(&self) -> (r: LanguageModelName) {
        LanguageModelName(self.display_name.clone())
    }

    fn provider_id(&self) -> (r: LanguageModelProviderId) {
        LanguageModelProviderId::new("openai")
    }

    fn provider_name(&self) -> (r: LanguageModelProviderName) {
        LanguageModelProviderName::new("OpenAI")
    }

    fn max_token_count(&self) -> (r: u64) {
        self.max_tokens
    }

    fn max_output_tokens(&self) -> (r: Option<u64>) {
        self.max_output_tokens
    }

    fn tool_input_format(&self) -> (r: LanguageModelToolSchemaFormat) {
        LanguageModelToolSchemaFormat::JsonSchema
    }

    fn supports_tools(&self) -> (r: bool) {
        true
    }

    fn supports_burn_mode(&self) -> (r: bool) {
        false
    }

    fn max_token_count_in_burn_mode(&self) -> (r: Option<u64>) {
        None
    }
}

} // verus!
