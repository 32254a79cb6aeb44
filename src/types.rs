//! The provider-neutral data model: messages, requests, tools and the
//! events of a completion stream.
use crate::json::{
    entries_view, json_as_string, json_entries, json_object_entries, json_str, lower_of,
    to_lowercase,
};
use crate::text::{all_ws, trim_end_seq, trim_end_str, lemma_all_ws_iff_trim_end_empty};
use vstd::prelude::*;
use vstd::string::StringExecFns;

verus! {

/// Who wrote a message.
#[derive(Clone, Copy, Debug, PartialEq, Eq, Hash, Structural)]
pub enum Role {
    User,
    Assistant,
    System,
}

/// An image attached to a message.
#[derive(Clone, Debug, PartialEq, Eq, Hash)]
pub struct LanguageModelImage {
    /// A base64-encoded PNG image.
    pub source: String,
}

pub open spec fn data_url_prefix() -> Seq<char> {
    "data:image/png;base64,"@
}

impl LanguageModelImage {
    /// Images are not measured in text units.
    pub fn len(&self) -> (r: usize)
        ensures
            r == 0,
    {
        0
    }

    /// The image as a `data:` URL.
    pub fn to_base64_url(&self) -> (r: String)
        ensures
            r@ == data_url_prefix() + self.source@,
    {
        let prefix = String::from_str("data:image/png;base64,");
        prefix.concat(self.source.as_str())
    }

    /// An image is never empty content.
    pub fn is_empty(&self) -> (r: bool)
        ensures
            !r,
    {
        false
    }
}

/// The identifier of a model.
#[derive(Clone, Debug, PartialEq, Eq, Hash, PartialOrd, Ord)]
pub struct LanguageModelId(pub String);

/// The display name of a model.
#[derive(Clone, Debug, PartialEq, Eq, Hash, PartialOrd, Ord)]
pub struct LanguageModelName(pub String);

impl From<String> for LanguageModelId {
    fn from(value: String) -> (r: Self) {
        LanguageModelId(value)
    }
}

impl vstd::std_specs::convert::FromSpecImpl<String> for LanguageModelId {
    open spec fn obeys_from_spec() -> bool {
        true
    }

    open spec fn from_spec(value: String) -> Self {
        LanguageModelId(value)
    }
}

impl From<String> for LanguageModelName {
    fn from(value: String) -> (r: Self) {
        LanguageModelName(value)
    }
}

impl vstd::std_specs::convert::FromSpecImpl<String> for LanguageModelName {
    open spec fn obeys_from_spec() -> bool {
        true
    }

    open spec fn from_spec(value: String) -> Self {
        LanguageModelName(value)
    }
}

impl From<String> for LanguageModelToolUseId {
    fn from(value: String) -> (r: Self) {
        LanguageModelToolUseId(value)
    }
}

impl vstd::std_specs::convert::FromSpecImpl<String> for LanguageModelToolUseId {
    open spec fn obeys_from_spec() -> bool {
        true
    }

    open spec fn from_spec(value: String) -> Self {
        LanguageModelToolUseId(value)
    }
}

impl From<String> for LanguageModelToolResultContent {
    fn from(value: String) -> (r: Self) {
        LanguageModelToolResultContent::Text(value)
    }
}

impl vstd::std_specs::convert::FromSpecImpl<String> for LanguageModelToolResultContent {
    open spec fn obeys_from_spec() -> bool {
        true
    }

    open spec fn from_spec(value: String) -> Self {
        LanguageModelToolResultContent::Text(value)
    }
}

/// The identifier of a provider.
#[derive(Clone, Debug, PartialEq, Eq, Hash, PartialOrd, Ord)]
pub struct LanguageModelProviderId(pub String);

impl LanguageModelProviderId {
    pub fn new(id: &str) -> (r: Self)
        ensures
            r.0@ == id@,
    {
        LanguageModelProviderId(String::from_str(id))
    }
}

/// The display name of a provider.
#[derive(Clone, Debug, PartialEq, Eq, Hash, PartialOrd, Ord)]
pub struct LanguageModelProviderName(pub String);

impl LanguageModelProviderName {
    pub fn new(name: &str) -> (r: Self)
        ensures
            r.0@ == name@,
    {
        LanguageModelProviderName(String::from_str(name))
    }

    /// The name as text.
    pub fn as_str(&self) -> (r: &str)
        ensures
            r@ == self.0@,
    {
        self.0.as_str()
    }
}

pub open spec fn anthropic_provider_name() -> Seq<char> {
    "Anthropic"@
}

pub open spec fn open_ai_provider_name() -> Seq<char> {
    "OpenAI"@
}

/// The name under which errors of the Anthropic protocol are reported.
pub fn anthropic_provider() -> (r: LanguageModelProviderName)
    ensures
        r.0@ == anthropic_provider_name(),
{
    LanguageModelProviderName::new("Anthropic")
}

/// The name under which errors of the OpenAI protocol are reported.
pub fn open_ai_provider() -> (r: LanguageModelProviderName)
    ensures
        r.0@ == open_ai_provider_name(),
{
    LanguageModelProviderName::new("OpenAI")
}

/// The identifier of one tool call.
#[derive(Clone, Debug, PartialEq, Eq, Hash)]
pub struct LanguageModelToolUseId(pub String);

/// A tool call made by the model.
#[derive(Clone, Debug, PartialEq, Eq)]
pub struct LanguageModelToolUse {
    pub id: LanguageModelToolUseId,
    pub name: String,
    pub raw_input: String,
    pub input: serde_json::Value,
    pub is_input_complete: bool,
}

/// What a tool handed back.
#[derive(Clone, Debug, PartialEq, Eq, Hash)]
pub enum LanguageModelToolResultContent {
    Text(String),
}

/// The value of the first member whose lowercased name is `key`.
pub open spec fn find_member(es: Seq<(Seq<char>, serde_json::Value)>, key: Seq<char>) -> Option<
    serde_json::Value,
>
    decreases es.len(),
{
    if es.len() == 0 {
        None
    } else if lower_of(es[0].0) == key {
        Some(es[0].1)
    } else {
        find_member(es.drop_first(), key)
    }
}

pub open spec fn str_of(v: Option<serde_json::Value>) -> Option<Seq<char>> {
    match v {
        Some(x) => json_str(x),
        None => None,
    }
}

/// The text that a tool result given as JSON stands for: a string; an
/// object `{"type": "text", "text": ...}`; or an object whose one member is
/// `"text"`. Member names and the type's value are matched in lowercase.
pub open spec fn tool_result_text(v: serde_json::Value) -> Option<Seq<char>> {
    match json_str(v) {
        Some(s) => Some(s),
        None => match json_entries(v) {
            Some(es) => {
                let ty = str_of(find_member(es, "type"@));
                let tx = str_of(find_member(es, "text"@));
                if ty is Some && lower_of(ty->0) == "text"@ && tx is Some {
                    tx
                } else if es.len() == 1 && lower_of(es[0].0) == "text"@ {
                    json_str(es[0].1)
                } else {
                    None
                }
            },
            None => None,
        },
    }
}

fn find_member_exec<'a>(es: &'a Vec<(String, serde_json::Value)>, key: &str) -> (r: Option<
    &'a serde_json::Value,
>)
    ensures
        r matches Some(x) ==> find_member(entries_view(es@), key@) == Some(*x),
        r is None ==> find_member(entries_view(es@), key@) is None,
{
    let ghost all = entries_view(es@);
    let target = String::from_str(key);
    let mut i: usize = 0;
    assert(all.subrange(0, all.len() as int) == all);
    while i < es.len()
        invariant
            i <= es@.len(),
            all == entries_view(es@),
            target@ == key@,
            find_member(all, key@) == find_member(all.subrange(i as int, all.len() as int), key@),
        decreases es@.len() - i,
    {
        let ghost rest = all.subrange(i as int, all.len() as int);
        assert(rest.drop_first() == all.subrange(i + 1, all.len() as int));
        assert(rest[0] == all[i as int]);
        let name = to_lowercase(es[i].0.as_str());
        if name == target {
            return Some(&es[i].1);
        }
        i = i + 1;
    }
    None
}

impl LanguageModelToolResultContent {
    /// Reads a tool result given as JSON, in any of the forms that
    /// `tool_result_text` accepts.
    pub fn from_json(value: &serde_json::Value) -> (r: Option<Self>)
        ensures
            r matches Some(c) ==> tool_result_text(*value) == Some(c.text_view()),
            r is None ==> tool_result_text(*value) is None,
    {
        if let Some(text) = json_as_string(value) {
            return Some(LanguageModelToolResultContent::Text(text));
        }
        if let Some(es) = json_object_entries(value) {
            let ghost ev = entries_view(es@);
            let ty = find_member_exec(&es, "type");
            let tx = find_member_exec(&es, "text");
            let ty_text = match ty {
                Some(v) => json_as_string(v),
                None => None,
            };
            let tx_text = match tx {
                Some(v) => json_as_string(v),
                None => None,
            };
            if let Some(t) = &ty_text {
                if to_lowercase(t.as_str()) == String::from_str("text") {
                    if let Some(text) = tx_text {
                        return Some(LanguageModelToolResultContent::Text(text));
                    }
                }
            }
            if es.len() == 1 {
                assert(ev[0] == (es@[0].0@, es@[0].1));
                if to_lowercase(es[0].0.as_str()) == String::from_str("text") {
                    if let Some(text) = json_as_string(&es[0].1) {
                        return Some(LanguageModelToolResultContent::Text(text));
                    }
                }
            }
        }
        None
    }

    pub open spec fn text_view(&self) -> Seq<char> {
        match self {
            LanguageModelToolResultContent::Text(t) => t@,
        }
    }

    pub fn to_str(&self) -> (r: Option<&str>)
        ensures
            r matches Some(s) && s@ == self.text_view(),
    {
        match self {
            LanguageModelToolResultContent::Text(t) => Some(t.as_str()),
        }
    }

    /// True when the text is whitespace only.
    pub fn is_empty(&self) -> (r: bool)
        ensures
            r == all_ws(self.text_view()),
    {
        match self {
            LanguageModelToolResultContent::Text(t) => {
                proof {
                    lemma_all_ws_iff_trim_end_empty(t@);
                }
                trim_end_str(t.as_str()).is_empty()
            },
        }
    }
}

/// The outcome of one tool call, as handed back to the model.
#[derive(Clone, Debug, PartialEq, Eq)]
pub struct LanguageModelToolResult {
    pub tool_use_id: LanguageModelToolUseId,
    pub tool_name: String,
    pub is_error: bool,
    pub content: LanguageModelToolResultContent,
    pub output: Option<serde_json::Value>,
}

/// One unit of a message's content.
#[derive(Clone, Debug, PartialEq, Eq)]
pub enum MessageContent {
    Text(String),
    Thinking { text: String, signature: Option<String> },
    RedactedThinking(String),
    Image(LanguageModelImage),
    ToolUse(LanguageModelToolUse),
    ToolResult(LanguageModelToolResult),
}

impl MessageContent {
    /// The text that the unit carries, if it carries text.
    pub open spec fn text_of(&self) -> Option<Seq<char>> {
        match self {
            MessageContent::Text(t) => Some(t@),
            MessageContent::Thinking { text, .. } => Some(text@),
            MessageContent::ToolResult(r) => Some(r.content.text_view()),
            _ => None,
        }
    }

    /// A unit is empty when it carries whitespace only; redacted thinking,
    /// images and tool calls never are.
    pub open spec fn spec_is_empty(&self) -> bool {
        match self.text_of() {
            Some(t) => all_ws(t),
            None => false,
        }
    }

    pub fn to_str(&self) -> (r: Option<&str>)
        ensures
            r matches Some(s) ==> self.text_of() == Some(s@),
            r is None ==> self.text_of() is None,
    {
        match self {
            MessageContent::Text(text) => Some(text.as_str()),
            MessageContent::Thinking { text, .. } => Some(text.as_str()),
            MessageContent::RedactedThinking(_) => None,
            MessageContent::ToolResult(tool_result) => tool_result.content.to_str(),
            MessageContent::ToolUse(_) | MessageContent::Image(_) => None,
        }
    }

    pub fn is_empty(&self) -> (r: bool)
        ensures
            r == self.spec_is_empty(),
    {
        match self {
            MessageContent::Text(text) => {
                proof {
                    lemma_all_ws_iff_trim_end_empty(text@);
                }
                trim_end_str(text.as_str()).is_empty()
            },
            MessageContent::Thinking { text, .. } => {
                proof {
                    lemma_all_ws_iff_trim_end_empty(text@);
                }
                trim_end_str(text.as_str()).is_empty()
            },
            MessageContent::ToolResult(tool_result) => tool_result.content.is_empty(),
            MessageContent::RedactedThinking(_)
            | MessageContent::ToolUse(_)
            | MessageContent::Image(_) => false,
        }
    }
}

/// The concatenated text of a sequence of content units.
pub open spec fn contents_text(c: Seq<MessageContent>) -> Seq<char>
    decreases c.len(),
{
    if c.len() == 0 {
        Seq::empty()
    } else {
        contents_text(c.drop_last()) + match c.last().text_of() {
            Some(t) => t,
            None => Seq::empty(),
        }
    }
}

/// One message of a conversation.
#[derive(Clone, Debug, PartialEq)]
pub struct LanguageModelRequestMessage {
    pub role: Role,
    pub content: Vec<MessageContent>,
    pub cache: bool,
}

impl LanguageModelRequestMessage {
    /// Every content unit is empty; the request builders drop such a
    /// message.
    pub open spec fn spec_contents_empty(&self) -> bool {
        forall|i: int| 0 <= i < self.content@.len() ==> (#[trigger] self.content@[i]).spec_is_empty()
    }

    /// The text of all units that carry text, in order.
    pub fn string_contents(&self) -> (r: String)
        ensures
            r@ == contents_text(self.content@),
    {
        let mut buffer = String::new();
        let mut i: usize = 0;
        while i < self.content.len()
            invariant
                i <= self.content@.len(),
                buffer@ == contents_text(self.content@.subrange(0, i as int)),
            decreases self.content@.len() - i,
        {
            let ghost prefix = self.content@.subrange(0, i + 1);
            assert(prefix.drop_last() == self.content@.subrange(0, i as int));
            if let Some(s) = self.content[i].to_str() {
                buffer.append(s);
            }
            i = i + 1;
        }
        assert(self.content@.subrange(0, self.content@.len() as int) == self.content@);
        buffer
    }

    pub fn contents_empty(&self) -> (r: bool)
        ensures
            r == self.spec_contents_empty(),
    {
        let mut i: usize = 0;
        while i < self.content.len()
            invariant
                i <= self.content@.len(),
                forall|j: int| 0 <= j < i ==> (#[trigger] self.content@[j]).spec_is_empty(),
            decreases self.content@.len() - i,
        {
            if !self.content[i].is_empty() {
                return false;
            }
            i = i + 1;
        }
        true
    }
}

/// A tool offered to the model; the schema is passed on as it is.
#[derive(Clone, Debug, PartialEq)]
pub struct LanguageModelRequestTool {
    pub name: String,
    pub description: String,
    pub input_schema: serde_json::Value,
}

/// What a request is for.
#[derive(Clone, Copy, Debug, PartialEq, Eq, Hash, PartialOrd, Ord, Structural)]
pub enum CompletionIntent {
    UserPrompt,
    ToolResults,
    ThreadSummarization,
    ThreadContextSummarization,
    CreateFile,
    EditFile,
    InlineAssist,
    TerminalInlineAssist,
    GenerateGitCommitMessage,
}

/// How much the model may spend on a request.
#[derive(Clone, Copy, Debug, PartialEq, Eq, Hash, PartialOrd, Ord, Structural)]
pub enum CompletionMode {
    Normal,
    Max,
}

/// Whether and how the model must call a tool.
#[derive(Clone, Copy, Debug, PartialEq, Eq, Hash, Structural)]
pub enum LanguageModelToolChoice {
    Auto,
    Any,
    /// The model must not call a tool.
    Disabled,
}

/// The dialect of JSON schema that a model takes for tool inputs.
#[derive(Clone, Copy, Debug, PartialEq, Eq, Hash, Structural)]
pub enum LanguageModelToolSchemaFormat {
    JsonSchema,
    JsonSchemaSubset,
}

/// A provider-neutral completion request.
#[derive(Clone, Debug, Default, PartialEq)]
pub struct LanguageModelRequest {
    pub thread_id: Option<String>,
    pub prompt_id: Option<String>,
    pub intent: Option<CompletionIntent>,
    pub mode: Option<CompletionMode>,
    pub messages: Vec<LanguageModelRequestMessage>,
    pub tools: Vec<LanguageModelRequestTool>,
    pub tool_choice: Option<LanguageModelToolChoice>,
    pub stop: Vec<String>,
    /// Sampling temperature in thousandths (700 stands for 0.7).
    pub temperature: Option<u32>,
    pub thinking_allowed: bool,
}

/// Token counts; each counter is independent.
#[derive(Clone, Copy, Debug, Default, PartialEq, Eq, Structural)]
pub struct TokenUsage {
    pub input_tokens: u64,
    pub output_tokens: u64,
    pub cache_creation_input_tokens: u64,
    pub cache_read_input_tokens: u64,
}

/// A plan's request limit.
#[derive(Clone, Copy, Debug, PartialEq, Eq, Structural)]
pub enum UsageLimit {
    Limited(i32),
    Unlimited,
}

/// Why the model stopped.
#[derive(Clone, Copy, Debug, PartialEq, Eq, Structural)]
pub enum StopReason {
    EndTurn,
    MaxTokens,
    ToolUse,
    Refusal,
}

#[verifier::external_type_specification]
#[verifier::external_body]
pub struct ExUuid(uuid::Uuid);

/// Relies on `uuid::Uuid`'s `Clone`, a copy of its sixteen bytes.
pub assume_specification[ <uuid::Uuid as Clone>::clone ](u: &uuid::Uuid) -> (r: uuid::Uuid)
    ensures
        r == *u,
;

/// Progress of a request on the provider's side.
#[derive(Clone, Debug, PartialEq)]
pub enum CompletionRequestStatus {
    Queued { position: usize },
    Started,
    Failed {
        code: String,
        message: String,
        request_id: uuid::Uuid,
        /// Whole seconds to wait before a retry.
        retry_after: Option<u64>,
    },
    UsageUpdated { amount: usize, limit: UsageLimit },
    ToolUseLimitReached,
}

/// One event of a completion stream.
#[derive(Clone, Debug, PartialEq)]
pub enum LanguageModelCompletionEvent {
    StatusUpdate(CompletionRequestStatus),
    Stop(StopReason),
    Text(String),
    Thinking { text: String, signature: Option<String> },
    RedactedThinking { data: String },
    ToolUse(LanguageModelToolUse),
    ToolUseJsonParseError {
        id: LanguageModelToolUseId,
        tool_name: String,
        raw_input: String,
        json_parse_error: String,
    },
    StartMessage { message_id: String },
    UsageUpdate(TokenUsage),
}

} // verus!
