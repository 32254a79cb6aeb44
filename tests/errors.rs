use llm_bridge::anthropic::{AnthropicError, ApiError};
use llm_bridge::errors::parse_retry_after;
use llm_bridge::{LanguageModelCompletionError, LanguageModelProviderName};

fn anthropic() -> LanguageModelProviderName {
    LanguageModelProviderName::new("Anthropic")
}

fn api(t: &str) -> LanguageModelCompletionError {
    LanguageModelCompletionError::from_api_error(ApiError {
        error_type: t.to_string(),
        message: "m".to_string(),
    })
}

#[test]
fn status_429_with_retry_after_is_rate_limit() {
    let e = LanguageModelCompletionError::from_response(anthropic(), 429, "slow down".to_string(), Some("2"));
    match e {
        LanguageModelCompletionError::RateLimitExceeded { provider, retry_after } => {
            assert_eq!(provider.0, "Anthropic");
            assert_eq!(retry_after, Some(2));
        }
        other => panic!("expected a rate limit, got {:?}", other),
    }
}

#[test]
fn statuses_map_to_their_kinds() {
    let e = |s: u16| LanguageModelCompletionError::from_http_status(anthropic(), s, "msg".to_string(), Some(7));
    assert!(matches!(e(400), LanguageModelCompletionError::BadRequestFormat { message, .. } if message == "msg"));
    assert!(matches!(e(401), LanguageModelCompletionError::AuthenticationError { .. }));
    assert!(matches!(e(403), LanguageModelCompletionError::PermissionError { .. }));
    assert!(matches!(e(404), LanguageModelCompletionError::ApiEndpointNotFound { .. }));
    assert!(matches!(e(413), LanguageModelCompletionError::PromptTooLarge { tokens: None }));
    assert!(matches!(e(429), LanguageModelCompletionError::RateLimitExceeded { retry_after: Some(7), .. }));
    assert!(matches!(e(500), LanguageModelCompletionError::ApiInternalServerError { message, .. } if message == "msg"));
    assert!(matches!(e(503), LanguageModelCompletionError::ServerOverloaded { retry_after: Some(7), .. }));
    assert!(matches!(e(529), LanguageModelCompletionError::ServerOverloaded { .. }));
    assert!(matches!(e(418), LanguageModelCompletionError::HttpResponseError { status_code: 418, .. }));
}

#[test]
fn retry_after_header_forms() {
    assert_eq!(parse_retry_after("2"), Some(2));
    assert_eq!(parse_retry_after("120"), Some(120));
    assert_eq!(parse_retry_after(""), None);
    assert_eq!(parse_retry_after("1.5"), None);
    assert_eq!(parse_retry_after(" 3"), None);
    assert_eq!(parse_retry_after("18446744073709551615"), Some(u64::MAX));
    assert_eq!(parse_retry_after("18446744073709551616"), None);
    let e = LanguageModelCompletionError::from_response(anthropic(), 503, String::new(), Some("soon"));
    assert!(matches!(e, LanguageModelCompletionError::ServerOverloaded { retry_after: None, .. }));
    let e = LanguageModelCompletionError::from_response(anthropic(), 429, String::new(), None);
    assert!(matches!(e, LanguageModelCompletionError::RateLimitExceeded { retry_after: None, .. }));
}

#[test]
fn api_error_types_map_to_their_kinds() {
    assert!(matches!(api("invalid_request_error"), LanguageModelCompletionError::BadRequestFormat { .. }));
    assert!(matches!(api("authentication_error"), LanguageModelCompletionError::AuthenticationError { .. }));
    assert!(matches!(api("permission_error"), LanguageModelCompletionError::PermissionError { .. }));
    assert!(matches!(api("not_found_error"), LanguageModelCompletionError::ApiEndpointNotFound { .. }));
    assert!(matches!(api("request_too_large"), LanguageModelCompletionError::PromptTooLarge { tokens: None }));
    assert!(matches!(api("rate_limit_error"), LanguageModelCompletionError::RateLimitExceeded { retry_after: None, .. }));
    assert!(matches!(api("api_error"), LanguageModelCompletionError::ApiInternalServerError { .. }));
    assert!(matches!(api("overloaded_error"), LanguageModelCompletionError::ServerOverloaded { .. }));
    match api("brand_new_error") {
        LanguageModelCompletionError::Other(e) => assert_eq!(e.to_string(), "brand_new_error: m"),
        other => panic!("expected Other, got {:?}", other),
    }
}

#[test]
fn transport_failures_keep_the_provider() {
    let e = LanguageModelCompletionError::from_anthropic_error(AnthropicError::RateLimit { retry_after: 30 });
    assert!(matches!(e, LanguageModelCompletionError::RateLimitExceeded { retry_after: Some(30), .. }));
    let e = LanguageModelCompletionError::from_anthropic_error(AnthropicError::HttpResponseError {
        status_code: 502,
        message: "bad gateway".to_string(),
    });
    assert!(matches!(e, LanguageModelCompletionError::HttpResponseError { status_code: 502, .. }));
    let io = std::io::Error::new(std::io::ErrorKind::Other, "reset");
    let e = LanguageModelCompletionError::from_anthropic_error(AnthropicError::ReadResponse(io));
    assert!(matches!(e, LanguageModelCompletionError::ApiReadResponseError { provider, .. } if provider.0 == "Anthropic"));
    let json_err = serde_json::from_str::<serde_json::Value>("{").unwrap_err();
    let e = LanguageModelCompletionError::from_anthropic_error(AnthropicError::DeserializeResponse(json_err));
    assert!(matches!(e, LanguageModelCompletionError::DeserializeResponse { .. }));
    let e = LanguageModelCompletionError::from_anthropic_error(AnthropicError::ApiError(ApiError {
        error_type: "authentication_error".to_string(),
        message: "bad key".to_string(),
    }));
    assert!(matches!(e, LanguageModelCompletionError::AuthenticationError { message, .. } if message == "bad key"));
}
