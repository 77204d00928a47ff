use cerebras_rs::api::{
    expect_answer, expect_entity, http_failure, ApiFailure, Completed, ErrorBody, ErrorDetail,
    Operation, StreamCall,
};
use cerebras_rs::error::DecodeError;
use cerebras_rs::status::HttpStatus;
use cerebras_rs::streaming::WireShape;
use cerebras_rs::{Configuration, Error};

fn status(code: u16) -> HttpStatus {
    HttpStatus::from_u16(code).unwrap()
}

fn detail(message: Option<&str>) -> ErrorDetail {
    ErrorDetail {
        message: message.map(|m| m.to_string()),
    }
}

fn response(code: u16, content: &str, entity: Option<ErrorBody>) -> ApiFailure {
    ApiFailure::ResponseError {
        status: status(code),
        content: content.to_string(),
        entity,
    }
}

#[test]
fn status_codes_have_three_digits() {
    assert_eq!(HttpStatus::from_u16(99), None);
    assert_eq!(HttpStatus::from_u16(0), None);
    assert_eq!(HttpStatus::from_u16(1000), None);
    assert_eq!(HttpStatus::from_u16(65535), None);
    assert_eq!(HttpStatus::from_u16(100).unwrap().code(), 100);
    assert_eq!(HttpStatus::from_u16(999).unwrap().code(), 999);
}

#[test]
fn success_is_two_hundred_to_two_ninety_nine() {
    assert!(!status(199).is_success());
    assert!(status(200).is_success());
    assert!(status(204).is_success());
    assert!(status(299).is_success());
    assert!(!status(300).is_success());
    assert!(!status(404).is_success());
}

#[test]
fn status_shows_number_and_reason() {
    assert_eq!(status(200).to_string(), "200 OK");
    assert_eq!(status(404).to_string(), "404 Not Found");
    assert_eq!(status(429).to_string(), "429 Too Many Requests");
    assert_eq!(status(999).to_string(), "999 <unknown status code>");
}

#[test]
fn http_failure_names_status_and_body() {
    assert_eq!(
        http_failure(status(503), "try later"),
        Error::Api("HTTP 503 Service Unavailable: try later".to_string())
    );
    assert_eq!(
        http_failure(status(400), ""),
        Error::Api("HTTP 400 Bad Request: ".to_string())
    );
}

#[test]
fn transport_failures_keep_their_description() {
    for operation in [
        Operation::CreateChatCompletion,
        Operation::CreateCompletion,
        Operation::ListModels,
        Operation::RetrieveModel,
    ] {
        assert_eq!(
            Error::from_failure(operation, ApiFailure::Reqwest("refused".to_string())),
            Error::Http("refused".to_string())
        );
        assert_eq!(
            Error::from_failure(operation, ApiFailure::Serde("expected value".to_string())),
            Error::Serialization(DecodeError::Json("expected value".to_string()))
        );
        assert_eq!(
            Error::from_failure(operation, ApiFailure::Io("broken pipe".to_string())),
            Error::Api("IO error: broken pipe".to_string())
        );
    }
}

#[test]
fn completion_failures_by_status() {
    for operation in [Operation::CreateChatCompletion, Operation::CreateCompletion] {
        assert_eq!(
            Error::from_failure(
                operation,
                response(400, "b", Some(ErrorBody::Status400(detail(Some("no messages")))))
            ),
            Error::InvalidRequest("no messages".to_string())
        );
        assert_eq!(
            Error::from_failure(
                operation,
                response(400, "b", Some(ErrorBody::Status400(detail(None))))
            ),
            Error::InvalidRequest("Bad request".to_string())
        );
        assert_eq!(
            Error::from_failure(
                operation,
                response(401, "b", Some(ErrorBody::Status401(detail(Some("x")))))
            ),
            Error::Authentication
        );
        assert_eq!(
            Error::from_failure(
                operation,
                response(422, "b", Some(ErrorBody::Status422(detail(Some("bad top_p")))))
            ),
            Error::InvalidRequest("bad top_p".to_string())
        );
        assert_eq!(
            Error::from_failure(
                operation,
                response(422, "b", Some(ErrorBody::Status422(detail(None))))
            ),
            Error::InvalidRequest("Invalid parameters".to_string())
        );
        assert_eq!(
            Error::from_failure(
                operation,
                response(429, "b", Some(ErrorBody::Status429(detail(Some("slow down")))))
            ),
            Error::RateLimit(0)
        );
        assert_eq!(
            Error::from_failure(
                operation,
                response(500, "b", Some(ErrorBody::Status500(detail(Some("boom")))))
            ),
            Error::ServerError("boom".to_string())
        );
        assert_eq!(
            Error::from_failure(
                operation,
                response(500, "b", Some(ErrorBody::Status500(detail(None))))
            ),
            Error::ServerError("Internal server error".to_string())
        );
        assert_eq!(
            Error::from_failure(
                operation,
                response(404, "gone", Some(ErrorBody::Status404(detail(Some("m")))))
            ),
            Error::Api("HTTP 404 Not Found: gone".to_string())
        );
        assert_eq!(
            Error::from_failure(operation, response(418, "tea", Some(ErrorBody::UnknownValue))),
            Error::Api("HTTP 418 I'm a teapot: tea".to_string())
        );
        assert_eq!(
            Error::from_failure(operation, response(502, "bad gateway", None)),
            Error::Api("HTTP 502 Bad Gateway: bad gateway".to_string())
        );
    }
}

#[test]
fn model_failures_by_status() {
    assert_eq!(
        Error::from_failure(
            Operation::RetrieveModel,
            response(404, "b", Some(ErrorBody::Status404(detail(Some("no such model")))))
        ),
        Error::NotFound("no such model".to_string())
    );
    assert_eq!(
        Error::from_failure(
            Operation::RetrieveModel,
            response(404, "b", Some(ErrorBody::Status404(detail(None))))
        ),
        Error::NotFound("Model not found".to_string())
    );
    assert_eq!(
        Error::from_failure(
            Operation::ListModels,
            response(404, "b", Some(ErrorBody::Status404(detail(None))))
        ),
        Error::Api("HTTP 404 Not Found: b".to_string())
    );
    for operation in [Operation::ListModels, Operation::RetrieveModel] {
        assert_eq!(
            Error::from_failure(
                operation,
                response(400, "b", Some(ErrorBody::Status400(detail(Some("m")))))
            ),
            Error::Api("HTTP 400 Bad Request: b".to_string())
        );
        assert_eq!(
            Error::from_failure(
                operation,
                response(422, "b", Some(ErrorBody::Status422(detail(Some("m")))))
            ),
            Error::Api("HTTP 422 Unprocessable Entity: b".to_string())
        );
        assert_eq!(
            Error::from_failure(
                operation,
                response(401, "b", Some(ErrorBody::Status401(detail(None))))
            ),
            Error::Authentication
        );
        assert_eq!(
            Error::from_failure(
                operation,
                response(429, "b", Some(ErrorBody::Status429(detail(None))))
            ),
            Error::RateLimit(0)
        );
        assert_eq!(
            Error::from_failure(
                operation,
                response(500, "b", Some(ErrorBody::Status500(detail(None))))
            ),
            Error::ServerError("Internal server error".to_string())
        );
    }
}

#[test]
fn response_body_has_to_be_there() {
    assert_eq!(expect_entity(Some(5u8)), Ok(5u8));
    assert_eq!(
        expect_entity::<u8>(None),
        Err(Error::Api("Unexpected response format".to_string()))
    );
}

#[test]
fn complete_answer_is_expected() {
    assert_eq!(
        expect_answer::<&str, u8>(Some(Completed::Answer("whole"))),
        Ok("whole")
    );
    assert_eq!(
        expect_answer::<&str, u8>(Some(Completed::Chunk(1))),
        Err(Error::Api(
            "Unexpected streaming response for non-streaming request".to_string()
        ))
    );
    assert_eq!(
        expect_answer::<&str, u8>(None),
        Err(Error::Api("Unexpected response format".to_string()))
    );
}

#[test]
fn stream_call_needs_an_api_key() {
    let mut configuration = Configuration::new();
    assert_eq!(
        configuration.stream_call(WireShape::Chat),
        Err(Error::Configuration("No API key configured".to_string()))
    );
    configuration.bearer_access_token = Some("secret".to_string());
    configuration.base_path = "http://localhost:8080".to_string();
    assert_eq!(
        configuration.stream_call(WireShape::Chat),
        Ok(StreamCall {
            url: "http://localhost:8080/chat/completions".to_string(),
            bearer_token: "secret".to_string(),
        })
    );
    assert_eq!(
        configuration.stream_call(WireShape::Text),
        Ok(StreamCall {
            url: "http://localhost:8080/completions".to_string(),
            bearer_token: "secret".to_string(),
        })
    );
}

#[test]
fn operations_have_their_addresses() {
    let mut configuration = Configuration::new();
    configuration.base_path = "https://host/v1".to_string();
    assert_eq!(Operation::CreateChatCompletion.path(), "/chat/completions");
    assert_eq!(Operation::CreateCompletion.path(), "/completions");
    assert_eq!(Operation::ListModels.path(), "/models");
    assert_eq!(Operation::RetrieveModel.path(), "/models/");
    assert_eq!(
        configuration.operation_url(Operation::CreateChatCompletion),
        "https://host/v1/chat/completions"
    );
    assert_eq!(
        configuration.operation_url(Operation::CreateCompletion),
        "https://host/v1/completions"
    );
    assert_eq!(
        configuration.operation_url(Operation::ListModels),
        "https://host/v1/models"
    );
    assert_eq!(
        configuration.operation_url(Operation::RetrieveModel),
        "https://host/v1/models/"
    );
}

#[test]
fn error_bodies_go_by_status() {
    let said = detail(Some("m"));
    assert_eq!(
        ErrorBody::for_status(status(400), Some(said.clone())),
        ErrorBody::Status400(said.clone())
    );
    assert_eq!(
        ErrorBody::for_status(status(401), Some(said.clone())),
        ErrorBody::Status401(said.clone())
    );
    assert_eq!(
        ErrorBody::for_status(status(404), Some(said.clone())),
        ErrorBody::Status404(said.clone())
    );
    assert_eq!(
        ErrorBody::for_status(status(422), Some(said.clone())),
        ErrorBody::Status422(said.clone())
    );
    assert_eq!(
        ErrorBody::for_status(status(429), Some(said.clone())),
        ErrorBody::Status429(said.clone())
    );
    assert_eq!(
        ErrorBody::for_status(status(500), Some(said.clone())),
        ErrorBody::Status500(said.clone())
    );
    assert_eq!(
        ErrorBody::for_status(status(503), Some(said)),
        ErrorBody::UnknownValue
    );
    assert_eq!(
        ErrorBody::for_status(status(400), None),
        ErrorBody::UnknownValue
    );
}
