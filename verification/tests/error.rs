use cerebras_rs::error::{DecodeError, Field};
use cerebras_rs::streaming::{decode_chunk, WireShape};
use cerebras_rs::Error;

#[test]
fn test_error_display() {
    let err = Error::Authentication;
    assert_eq!(
        err.to_string(),
        "Authentication failed. Please check your API key"
    );

    let err = Error::RateLimit(60);
    assert_eq!(
        err.to_string(),
        "Rate limit exceeded. Please retry after 60 seconds"
    );
}

#[test]
fn every_error_has_its_text() {
    assert_eq!(
        Error::Http("connection reset".to_string()).to_string(),
        "HTTP request failed: connection reset"
    );
    assert_eq!(
        Error::Api("HTTP 500: x".to_string()).to_string(),
        "API error: HTTP 500: x"
    );
    assert_eq!(
        Error::ApiError {
            error_type: "invalid_request_error".to_string(),
            code: "wrong_api_key".to_string(),
            message: "Wrong API key".to_string(),
            param: Some("api_key".to_string()),
        }
        .to_string(),
        "API error (wrong_api_key): Wrong API key"
    );
    assert_eq!(
        Error::Serialization(DecodeError::Json("expected value".to_string())).to_string(),
        "Serialization error: expected value"
    );
    assert_eq!(
        Error::Serialization(DecodeError::Schema(Field::Index)).to_string(),
        "Serialization error: invalid value at choices[].index"
    );
    assert_eq!(
        Error::Configuration("No API key configured".to_string()).to_string(),
        "Configuration error: No API key configured"
    );
    assert_eq!(
        Error::InvalidModel("gpt".to_string()).to_string(),
        "Invalid model identifier: gpt"
    );
    assert_eq!(
        Error::NotFound("model".to_string()).to_string(),
        "Resource not found: model"
    );
    assert_eq!(
        Error::InvalidRequest("bad".to_string()).to_string(),
        "Invalid request: bad"
    );
    assert_eq!(
        Error::ServerError("oops".to_string()).to_string(),
        "Server error: oops"
    );
    assert_eq!(
        Error::Streaming("cut".to_string()).to_string(),
        "Streaming error: cut"
    );
    assert_eq!(Error::Timeout.to_string(), "Request timed out");
    assert_eq!(Error::Unknown.to_string(), "Unknown error occurred");
}

#[test]
fn rate_limit_text_for_edge_numbers() {
    assert_eq!(
        Error::RateLimit(0).to_string(),
        "Rate limit exceeded. Please retry after 0 seconds"
    );
    assert_eq!(
        Error::RateLimit(9).to_string(),
        "Rate limit exceeded. Please retry after 9 seconds"
    );
    assert_eq!(
        Error::RateLimit(10).to_string(),
        "Rate limit exceeded. Please retry after 10 seconds"
    );
    assert_eq!(
        Error::RateLimit(u64::MAX).to_string(),
        "Rate limit exceeded. Please retry after 18446744073709551615 seconds"
    );
}

#[test]
fn every_field_has_its_path() {
    let paths = [
        (Field::Chunk, "chunk"),
        (Field::Id, "id"),
        (Field::Created, "created"),
        (Field::Model, "model"),
        (Field::Choices, "choices"),
        (Field::Choice, "choices[]"),
        (Field::Index, "choices[].index"),
        (Field::Delta, "choices[].delta"),
        (Field::Content, "choices[].delta.content"),
        (Field::Text, "choices[].text"),
        (Field::FinishReason, "choices[].finish_reason"),
    ];
    for (field, path) in paths {
        assert_eq!(field.path(), path);
        assert_eq!(
            DecodeError::Schema(field).to_string(),
            format!("invalid value at {}", path)
        );
    }
}

#[test]
fn decode_error_text_is_the_parser_description() {
    let error = decode_chunk(WireShape::Chat, "[DONE]").unwrap_err();
    assert_eq!(
        error,
        DecodeError::Json("expected value at line 1 column 2".to_string())
    );
    assert_eq!(error.to_string(), "expected value at line 1 column 2");
}
