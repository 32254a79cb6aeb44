//! The shared error vocabulary and the rules that classify provider failures.
use crate::anthropic::{AnthropicError, ApiError};
use crate::types::{anthropic_provider, anthropic_provider_name, LanguageModelProviderName};
use vstd::prelude::*;
use vstd::string::StringExecFns;

verus! {

#[verifier::external_type_specification]
#[verifier::external_body]
pub struct ExJsonError(serde_json::Error);

#[verifier::external_type_specification]
#[verifier::external_body]
pub struct ExHttpError(http::Error);

#[verifier::external_type_specification]
#[verifier::external_body]
pub struct ExAnyhowError(anyhow::Error);

#[verifier::external_type_specification]
#[verifier::external_body]
pub struct ExIoError(std::io::Error);

/// Relies on `anyhow::Error::msg`: an error that displays the given text.
#[verifier::external_body]
pub(crate) fn anyhow_message(message: String) -> anyhow::Error {
    anyhow::Error::msg(message)
}

/// Every way a completion can fail. Retry delays are in whole seconds.
#[derive(Debug)]
pub enum LanguageModelCompletionError {
    PromptTooLarge { tokens: Option<u64> },
    NoApiKey { provider: LanguageModelProviderName },
    RateLimitExceeded { provider: LanguageModelProviderName, retry_after: Option<u64> },
    ServerOverloaded { provider: LanguageModelProviderName, retry_after: Option<u64> },
    ApiInternalServerError { provider: LanguageModelProviderName, message: String },
    UpstreamProviderError { message: String, status: u16, retry_after: Option<u64> },
    HttpResponseError { provider: LanguageModelProviderName, status_code: u16, message: String },
    BadRequestFormat { provider: LanguageModelProviderName, message: String },
    AuthenticationError { provider: LanguageModelProviderName, message: String },
    PermissionError { provider: LanguageModelProviderName, message: String },
    ApiEndpointNotFound { provider: LanguageModelProviderName },
    ApiReadResponseError { provider: LanguageModelProviderName, error: std::io::Error },
    SerializeRequest { provider: LanguageModelProviderName, error: serde_json::Error },
    BuildRequestBody { provider: LanguageModelProviderName, error: http::Error },
    HttpSend { provider: LanguageModelProviderName, error: anyhow::Error },
    DeserializeResponse { provider: LanguageModelProviderName, error: serde_json::Error },
    Other(anyhow::Error),
}

/// The error that an HTTP failure status stands for.
pub open spec fn status_error(
    provider: LanguageModelProviderName,
    status: u16,
    message: String,
    retry_after: Option<u64>,
) -> LanguageModelCompletionError {
    if status == 400 {
        LanguageModelCompletionError::BadRequestFormat { provider, message }
    } else if status == 401 {
        LanguageModelCompletionError::AuthenticationError { provider, message }
    } else if status == 403 {
        LanguageModelCompletionError::PermissionError { provider, message }
    } else if status == 404 {
        LanguageModelCompletionError::ApiEndpointNotFound { provider }
    } else if status == 413 {
        LanguageModelCompletionError::PromptTooLarge { tokens: None }
    } else if status == 429 {
        LanguageModelCompletionError::RateLimitExceeded { provider, retry_after }
    } else if status == 500 {
        LanguageModelCompletionError::ApiInternalServerError { provider, message }
    } else if status == 503 || status == 529 {
        LanguageModelCompletionError::ServerOverloaded { provider, retry_after }
    } else {
        LanguageModelCompletionError::HttpResponseError { provider, status_code: status, message }
    }
}

pub open spec fn is_digit(c: char) -> bool {
    '0' <= c && c <= '9'
}

/// The number that a string of decimal digits writes.
pub open spec fn decimal_value(s: Seq<char>) -> int
    decreases s.len(),
{
    if s.len() == 0 {
        0
    } else {
        decimal_value(s.drop_last()) * 10 + (s.last() as int - '0' as int)
    }
}

/// The delay that a `retry-after` header in seconds gives: present when the
/// value is one or more decimal digits whose number fits in 64 bits.
pub open spec fn retry_seconds(h: Seq<char>) -> Option<u64> {
    if h.len() > 0 && (forall|i: int| 0 <= i < h.len() ==> is_digit(#[trigger] h[i]))
        && decimal_value(h) <= u64::MAX {
        Some(decimal_value(h) as u64)
    } else {
        None
    }
}

proof fn lemma_decimal_value_grows(s: Seq<char>, i: int)
    requires
        0 <= i <= s.len(),
        forall|j: int| 0 <= j < s.len() ==> is_digit(#[trigger] s[j]),
    ensures
        0 <= decimal_value(s.subrange(0, i)) <= decimal_value(s),
    decreases s.len() - i,
{
    if i < s.len() {
        lemma_decimal_value_grows(s, i + 1);
        assert(s.subrange(0, i + 1).drop_last() == s.subrange(0, i));
    } else {
        assert(s.subrange(0, i) == s);
    }
    lemma_decimal_value_nonneg(s.subrange(0, i));
}

proof fn lemma_decimal_value_nonneg(s: Seq<char>)
    requires
        forall|j: int| 0 <= j < s.len() ==> is_digit(#[trigger] s[j]),
    ensures
        0 <= decimal_value(s),
    decreases s.len(),
{
    if s.len() > 0 {
        lemma_decimal_value_nonneg(s.drop_last());
    }
}

/// Reads a `retry-after` header given in whole seconds.
pub fn parse_retry_after(header: &str) -> (r: Option<u64>)
    ensures
        r == retry_seconds(header@),
{
    let n = header.unicode_len();
    if n == 0 {
        return None;
    }
    let mut value: u64 = 0;
    let mut i: usize = 0;
    while i < n
        invariant
            n == header@.len(),
            i <= n,
            forall|j: int| 0 <= j < i ==> is_digit(#[trigger] header@[j]),
            value == decimal_value(header@.subrange(0, i as int)),
        decreases n - i,
    {
        let c = header.get_char(i);
        if !('0' <= c && c <= '9') {
            return None;
        }
        assert(header@.subrange(0, i + 1).drop_last() == header@.subrange(0, i as int));
        let d = (c as u32 - '0' as u32) as u64;
        if value > (u64::MAX - d) / 10 {
            proof {
                assert(value * 10 + d > u64::MAX) by (nonlinear_arith)
                    requires
                        value > (u64::MAX - d) / 10,
                        d <= 9,
                ;
                if forall|j: int| 0 <= j < n ==> is_digit(#[trigger] header@[j]) {
                    lemma_decimal_value_grows(header@, i + 1);
                }
            }
            return None;
        }
        value = value * 10 + d;
        i = i + 1;
    }
    assert(header@.subrange(0, n as int) == header@);
    Some(value)
}

/// The error that an API error event reports, by its type name; unknown
/// types are `Other`.
pub open spec fn api_error_kind(error: ApiError, r: LanguageModelCompletionError) -> bool {
    let t = error.error_type@;
    let named = |p: LanguageModelProviderName| p.0@ == anthropic_provider_name();
    if t == "invalid_request_error"@ {
        r matches LanguageModelCompletionError::BadRequestFormat { provider, message } && named(
            provider,
        ) && message == error.message
    } else if t == "authentication_error"@ {
        r matches LanguageModelCompletionError::AuthenticationError { provider, message }
            && named(provider) && message == error.message
    } else if t == "permission_error"@ {
        r matches LanguageModelCompletionError::PermissionError { provider, message } && named(
            provider,
        ) && message == error.message
    } else if t == "not_found_error"@ {
        r matches LanguageModelCompletionError::ApiEndpointNotFound { provider } && named(provider)
    } else if t == "request_too_large"@ {
        r == LanguageModelCompletionError::PromptTooLarge { tokens: None }
    } else if t == "rate_limit_error"@ {
        r matches LanguageModelCompletionError::RateLimitExceeded { provider, retry_after }
            && named(provider) && retry_after is None
    } else if t == "api_error"@ {
        r matches LanguageModelCompletionError::ApiInternalServerError { provider, message }
            && named(provider) && message == error.message
    } else if t == "overloaded_error"@ {
        r matches LanguageModelCompletionError::ServerOverloaded { provider, retry_after }
            && named(provider) && retry_after is None
    } else {
        r is Other
    }
}

/// The error that a transport failure of the Anthropic protocol stands for.
pub open spec fn anthropic_error_kind(e: AnthropicError, r: LanguageModelCompletionError) -> bool {
    let named = |p: LanguageModelProviderName| p.0@ == anthropic_provider_name();
    match e {
        AnthropicError::SerializeRequest(error) => r matches
            LanguageModelCompletionError::SerializeRequest { provider, error: e2 } && named(
            provider,
        ) && e2 == error,
        AnthropicError::BuildRequestBody(error) => r matches
            LanguageModelCompletionError::BuildRequestBody { provider, error: e2 } && named(
            provider,
        ) && e2 == error,
        AnthropicError::HttpSend(error) => r matches LanguageModelCompletionError::HttpSend {
            provider,
            error: e2,
        } && named(provider) && e2 == error,
        AnthropicError::DeserializeResponse(error) => r matches
            LanguageModelCompletionError::DeserializeResponse { provider, error: e2 } && named(
            provider,
        ) && e2 == error,
        AnthropicError::ReadResponse(error) => r matches
            LanguageModelCompletionError::ApiReadResponseError { provider, error: e2 } && named(
            provider,
        ) && e2 == error,
        AnthropicError::HttpResponseError { status_code, message } => r matches
            LanguageModelCompletionError::HttpResponseError { provider, status_code: s, message: m }
            && named(provider) && s == status_code && m == message,
        AnthropicError::RateLimit { retry_after } => r matches
            LanguageModelCompletionError::RateLimitExceeded { provider, retry_after: ra } && named(
            provider,
        ) && ra == Some(retry_after),
        AnthropicError::ServerOverloaded { retry_after } => r matches
            LanguageModelCompletionError::ServerOverloaded { provider, retry_after: ra } && named(
            provider,
        ) && ra == retry_after,
        AnthropicError::ApiError(error) => api_error_kind(error, r),
    }
}

impl LanguageModelCompletionError {
    /// The error for an HTTP failure status of `provider`.
    pub fn from_http_status(
        provider: LanguageModelProviderName,
        status_code: u16,
        message: String,
        retry_after: Option<u64>,
    ) -> (r: Self)
        ensures
            r == status_error(provider, status_code, message, retry_after),
    {
        if status_code == 400 {
            LanguageModelCompletionError::BadRequestFormat { provider, message }
        } else if status_code == 401 {
            LanguageModelCompletionError::AuthenticationError { provider, message }
        } else if status_code == 403 {
            LanguageModelCompletionError::PermissionError { provider, message }
        } else if status_code == 404 {
            LanguageModelCompletionError::ApiEndpointNotFound { provider }
        } else if status_code == 413 {
            LanguageModelCompletionError::PromptTooLarge { tokens: None }
        } else if status_code == 429 {
            LanguageModelCompletionError::RateLimitExceeded { provider, retry_after }
        } else if status_code == 500 {
            LanguageModelCompletionError::ApiInternalServerError { provider, message }
        } else if status_code == 503 || status_code == 529 {
            LanguageModelCompletionError::ServerOverloaded { provider, retry_after }
        } else {
            LanguageModelCompletionError::HttpResponseError { provider, status_code, message }
        }
    }

    /// Classifies a failed response from its status, its body and its
    /// `retry-after` header.
    pub fn from_response(
        provider: LanguageModelProviderName,
        status_code: u16,
        body: String,
        retry_after_header: Option<&str>,
    ) -> (r: Self)
        ensures
            r == status_error(
                provider,
                status_code,
                body,
                match retry_after_header {
                    Some(h) => retry_seconds(h@),
                    None => None,
                },
            ),
    {
        let retry_after = match retry_after_header {
            Some(h) => parse_retry_after(h),
            None => None,
        };
        Self::from_http_status(provider, status_code, body, retry_after)
    }

    /// Classifies an error event of the Anthropic stream by its type name.
    pub fn from_api_error(error: ApiError) -> (r: Self)
        ensures
            api_error_kind(error, r),
    {
        let provider = anthropic_provider();
        let t = &error.error_type;
        if *t == String::from_str("invalid_request_error") {
            LanguageModelCompletionError::BadRequestFormat { provider, message: error.message }
        } else if *t == String::from_str("authentication_error") {
            LanguageModelCompletionError::AuthenticationError { provider, message: error.message }
        } else if *t == String::from_str("permission_error") {
            LanguageModelCompletionError::PermissionError { provider, message: error.message }
        } else if *t == String::from_str("not_found_error") {
            LanguageModelCompletionError::ApiEndpointNotFound { provider }
        } else if *t == String::from_str("request_too_large") {
            LanguageModelCompletionError::PromptTooLarge { tokens: None }
        } else if *t == String::from_str("rate_limit_error") {
            LanguageModelCompletionError::RateLimitExceeded { provider, retry_after: None }
        } else if *t == String::from_str("api_error") {
            LanguageModelCompletionError::ApiInternalServerError { provider, message: error.message }
        } else if *t == String::from_str("overloaded_error") {
            LanguageModelCompletionError::ServerOverloaded { provider, retry_after: None }
        } else {
            let text = error.error_type.concat(": ");
            let text = text.concat(error.message.as_str());
            LanguageModelCompletionError::Other(anyhow_message(text))
        }
    }

    /// Classifies a transport failure of the Anthropic protocol.
    pub fn from_anthropic_error(error: AnthropicError) -> (r: Self)
        ensures
            anthropic_error_kind(error, r),
    {
        let provider = anthropic_provider();
        match error {
            AnthropicError::SerializeRequest(error) => LanguageModelCompletionError::SerializeRequest {
                provider,
                error,
            },
            AnthropicError::BuildRequestBody(error) => LanguageModelCompletionError::BuildRequestBody {
                provider,
                error,
            },
            AnthropicError::HttpSend(error) => LanguageModelCompletionError::HttpSend {
                provider,
                error,
            },
            AnthropicError::DeserializeResponse(error) =>
                LanguageModelCompletionError::DeserializeResponse { provider, error },
            AnthropicError::ReadResponse(error) => LanguageModelCompletionError::ApiReadResponseError {
                provider,
                error,
            },
            AnthropicError::HttpResponseError { status_code, message } =>
                LanguageModelCompletionError::HttpResponseError { provider, status_code, message },
            AnthropicError::RateLimit { retry_after } =>
                LanguageModelCompletionError::RateLimitExceeded {
                provider,
                retry_after: Some(retry_after),
            },
            AnthropicError::ServerOverloaded { retry_after } =>
                LanguageModelCompletionError::ServerOverloaded { provider, retry_after },
            AnthropicError::ApiError(error) => Self::from_api_error(error),
        }
    }
}

} // verus!
