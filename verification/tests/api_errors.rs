use openai_api::api::errors::{ApiError, ErrorDetail, OpenAIError};
use openai_api::api::json::Json;
use reqwest::StatusCode;

#[test]
fn test_api_error_parsing() {
    let error_json = r#"
    {
        "error": {
            "message": "Invalid API key",
            "type": "invalid_request_error",
            "code": "invalid_api_key"
        }
    }
    "#;

    let error = OpenAIError::parse_api_error(error_json, StatusCode::UNAUTHORIZED.as_u16());

    match error {
        OpenAIError::ApiError {
            message,
            error_type,
            code,
        } => {
            assert_eq!(message, "Invalid API key");
            assert_eq!(error_type, "invalid_request_error");
            assert_eq!(code, "invalid_api_key");
        }
        _ => panic!("Expected ApiError variant"),
    }
}

#[test]
fn test_http_error_parsing() {
    let error_text = "Server Error";
    let error =
        OpenAIError::parse_api_error(error_text, StatusCode::INTERNAL_SERVER_ERROR.as_u16());

    match error {
        OpenAIError::HttpError { status, message } => {
            assert_eq!(status, StatusCode::INTERNAL_SERVER_ERROR.as_u16());
            assert_eq!(message, "Server Error");
        }
        _ => panic!("Expected HttpError variant"),
    }
}

fn classified_as_api_error(body: &str) -> (String, String, String) {
    match OpenAIError::parse_api_error(body, 400) {
        OpenAIError::ApiError {
            message,
            error_type,
            code,
        } => (message, error_type, code),
        other => panic!("Expected ApiError variant, got {:?}", other),
    }
}

fn classified_as_http_error(body: &str, status: u16) -> (u16, String) {
    match OpenAIError::parse_api_error(body, status) {
        OpenAIError::HttpError { status, message } => (status, message),
        other => panic!("Expected HttpError variant, got {:?}", other),
    }
}

#[test]
fn missing_type_and_code_read_unknown() {
    let (message, error_type, code) =
        classified_as_api_error(r#"{"error": {"message": "Rate limit reached"}}"#);
    assert_eq!(message, "Rate limit reached");
    assert_eq!(error_type, "unknown");
    assert_eq!(code, "unknown");
}

#[test]
fn null_type_and_code_read_unknown() {
    let (message, error_type, code) = classified_as_api_error(
        r#"{"error": {"message": "m", "type": null, "code": null, "param": null}}"#,
    );
    assert_eq!(message, "m");
    assert_eq!(error_type, "unknown");
    assert_eq!(code, "unknown");
}

#[test]
fn only_the_code_is_missing() {
    let (message, error_type, code) =
        classified_as_api_error(r#"{"error": {"message": "m", "type": "server_error"}}"#);
    assert_eq!(message, "m");
    assert_eq!(error_type, "server_error");
    assert_eq!(code, "unknown");
}

#[test]
fn members_beside_the_envelope_are_passed_over() {
    let (message, error_type, code) = classified_as_api_error(
        r#"{"request_id": 17, "error": {"message": "m", "type": "t", "code": "c", "param": "p", "details": [1, {"a": null}]}}"#,
    );
    assert_eq!(message, "m");
    assert_eq!(error_type, "t");
    assert_eq!(code, "c");
}

#[test]
fn an_empty_message_is_a_message() {
    let (message, error_type, code) =
        classified_as_api_error(r#"{"error": {"message": "", "type": "", "code": ""}}"#);
    assert_eq!(message, "");
    assert_eq!(error_type, "");
    assert_eq!(code, "");
}

#[test]
fn escapes_in_the_envelope_are_decoded() {
    let (message, _, code) = classified_as_api_error(
        r#"{"error": {"message": "line one\nline \"two\" é", "code": "café"}}"#,
    );
    assert_eq!(message, "line one\nline \"two\" é");
    assert_eq!(code, "café");
}

#[test]
fn bodies_of_another_shape_are_kept_as_they_came() {
    let bodies = [
        "",
        "   ",
        "Server Error",
        "<html><body>502 Bad Gateway</body></html>",
        "null",
        "42",
        "\"error\"",
        "[]",
        "{}",
        r#"{"error": null}"#,
        r#"{"error": "boom"}"#,
        r#"{"error": {}}"#,
        r#"{"error": {"type": "t", "code": "c"}}"#,
        r#"{"error": {"message": null}}"#,
        r#"{"error": {"message": 7}}"#,
        r#"{"error": {"message": "m", "type": 7}}"#,
        r#"{"error": {"message": "m", "code": 404}}"#,
        r#"{"error": {"message": "m", "param": ["p"]}}"#,
        r#"{"errors": {"message": "m"}}"#,
        r#"{"error": {"message": "m"}"#,
        r#"{"error": {"message": "m"}} trailing"#,
        r#"[{"error": {"message": "m"}}]"#,
    ];
    for body in bodies {
        let (status, message) = classified_as_http_error(body, 502);
        assert_eq!(status, 502);
        assert_eq!(message, body);
    }
}

#[test]
fn the_body_is_kept_byte_for_byte() {
    let body = "  \u{feff}déjà vu — 失敗\r\n\t\0 ";
    let (status, message) = classified_as_http_error(body, 418);
    assert_eq!(status, 418);
    assert_eq!(message.as_bytes(), body.as_bytes());
}

#[test]
fn the_status_is_kept_whatever_it_is() {
    for status in [0u16, 99, 100, 404, 500, 599, 999, 1000, u16::MAX] {
        let (kept, _) = classified_as_http_error("nope", status);
        assert_eq!(kept, status);
    }
}

fn object(members: Vec<(&str, Json)>) -> Json {
    Json::Object(
        members
            .into_iter()
            .map(|(name, value)| (name.to_string(), value))
            .collect(),
    )
}

fn text(value: &str) -> Json {
    Json::Text(value.to_string())
}

#[test]
fn from_document_reads_an_envelope() {
    let document = object(vec![(
        "error",
        object(vec![
            ("message", text("Invalid API key")),
            ("type", text("invalid_request_error")),
            ("code", Json::Null),
        ]),
    )]);
    match OpenAIError::from_document(Some(document), "raw body", 401) {
        OpenAIError::ApiError {
            message,
            error_type,
            code,
        } => {
            assert_eq!(message, "Invalid API key");
            assert_eq!(error_type, "invalid_request_error");
            assert_eq!(code, "unknown");
        }
        other => panic!("Expected ApiError variant, got {:?}", other),
    }
}

#[test]
fn from_document_without_a_document_keeps_the_body() {
    match OpenAIError::from_document(None, "raw body", 503) {
        OpenAIError::HttpError { status, message } => {
            assert_eq!(status, 503);
            assert_eq!(message, "raw body");
        }
        other => panic!("Expected HttpError variant, got {:?}", other),
    }
}

#[test]
fn from_document_takes_the_first_member_of_a_name() {
    let document = object(vec![(
        "error",
        object(vec![
            ("message", text("first")),
            ("message", text("second")),
        ]),
    )]);
    match OpenAIError::from_document(Some(document), "raw", 400) {
        OpenAIError::ApiError { message, .. } => assert_eq!(message, "first"),
        other => panic!("Expected ApiError variant, got {:?}", other),
    }
}

#[test]
fn from_document_refuses_a_wrong_member_even_behind_a_good_one() {
    // The first member called "type" decides; it is a number here.
    let document = object(vec![(
        "error",
        object(vec![
            ("message", text("m")),
            ("type", Json::Bool(true)),
            ("type", text("t")),
        ]),
    )]);
    assert!(matches!(
        OpenAIError::from_document(Some(document), "raw", 400),
        OpenAIError::HttpError { status: 400, .. }
    ));
}

#[test]
fn error_detail_from_json() {
    let detail = ErrorDetail::from_json(&object(vec![
        ("param", text("model")),
        ("code", text("c")),
        ("message", text("m")),
    ]))
    .unwrap();
    assert_eq!(detail.message, "m");
    assert_eq!(detail.error_type, None);
    assert_eq!(detail.code, Some("c".to_string()));
    assert_eq!(detail.param, Some("model".to_string()));

    assert!(ErrorDetail::from_json(&Json::Null).is_none());
    assert!(ErrorDetail::from_json(&text("m")).is_none());
    assert!(ErrorDetail::from_json(&Json::List(vec![text("m")])).is_none());
    assert!(ErrorDetail::from_json(&object(vec![])).is_none());
}

#[test]
fn api_error_from_json() {
    let envelope =
        ApiError::from_json(&object(vec![("error", object(vec![("message", text("m"))]))]))
            .unwrap();
    assert_eq!(envelope.error.message, "m");
    assert_eq!(envelope.error.error_type, None);
    assert_eq!(envelope.error.code, None);
    assert_eq!(envelope.error.param, None);

    assert!(ApiError::from_json(&object(vec![("message", text("m"))])).is_none());
    assert!(ApiError::from_json(&Json::List(vec![])).is_none());
}

#[test]
fn messages_of_the_errors() {
    let api = OpenAIError::ApiError {
        message: "Invalid API key".to_string(),
        error_type: "invalid_request_error".to_string(),
        code: "invalid_api_key".to_string(),
    };
    assert_eq!(
        api.to_string(),
        "API Error: Invalid API key (Type: invalid_request_error, Code: invalid_api_key)"
    );

    let http = OpenAIError::HttpError {
        status: 500,
        message: "Server Error".to_string(),
    };
    assert_eq!(
        http.to_string(),
        "HTTP Error 500 Internal Server Error: Server Error"
    );
    assert_eq!(
        http.to_string(),
        format!(
            "HTTP Error {}: {}",
            StatusCode::INTERNAL_SERVER_ERROR,
            "Server Error"
        )
    );

    let parse = OpenAIError::JsonParseError("missing field `id` at line 1 column 2".to_string());
    assert_eq!(
        parse.to_string(),
        "JSON Parse Error: missing field `id` at line 1 column 2"
    );

    assert_eq!(
        OpenAIError::NoOutputMessages.to_string(),
        "No output messages returned from OpenAI"
    );
    assert_eq!(
        OpenAIError::EmptyResponse.to_string(),
        "Empty response content"
    );
}

#[test]
fn status_codes_in_messages() {
    for code in [100u16, 200, 404, 429, 599, 999] {
        let error = OpenAIError::HttpError {
            status: code,
            message: "m".to_string(),
        };
        let expected = format!("HTTP Error {}: m", StatusCode::from_u16(code).unwrap());
        assert_eq!(error.to_string(), expected);
        assert!(error.to_string().starts_with(&format!("HTTP Error {} ", code)));
    }
    let none = OpenAIError::HttpError {
        status: 299,
        message: "m".to_string(),
    };
    assert_eq!(none.to_string(), "HTTP Error 299 <unknown status code>: m");
}

#[test]
fn numbers_that_are_no_status_code_in_messages() {
    for code in [0u16, 7, 99, 1000, 65535] {
        let error = OpenAIError::HttpError {
            status: code,
            message: "m".to_string(),
        };
        assert_eq!(
            error.to_string(),
            format!("HTTP Error {} <unknown status code>: m", code)
        );
    }
}

#[test]
fn a_transport_failure_becomes_a_network_error() {
    let cause = reqwest::Client::new()
        .get("not a url")
        .build()
        .expect_err("the address is no URL");
    let said = cause.to_string();
    let error = OpenAIError::from(cause);
    assert!(matches!(error, OpenAIError::NetworkError(_)));
    assert_eq!(error.to_string(), format!("Network Error: {}", said));
}
