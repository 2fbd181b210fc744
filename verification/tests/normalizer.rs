use openai_client::error::ClientError;
use openai_client::outcome::{normalize, RawOutcome};

fn canon(text: &str) -> String {
    serde_json::from_str::<serde_json::Value>(text)
        .unwrap()
        .to_string()
}

#[test]
fn success_returns_parsed_json_verbatim() {
    let body = r#"{"choices":[{"index":0,"message":{"role":"assistant","content":"hello"}}]}"#;
    let result = normalize(RawOutcome::Success {
        body: body.to_string(),
    });
    assert_eq!(result, Ok(canon(body)));
    // The success payload is the same JSON value as the response body.
    let returned: serde_json::Value = serde_json::from_str(&result.unwrap()).unwrap();
    let sent: serde_json::Value = serde_json::from_str(body).unwrap();
    assert_eq!(returned, sent);
}

#[test]
fn success_reserializes_canonically() {
    let body = "{\"b\": 2, \"a\": [1, true, null]} ";
    let result = normalize(RawOutcome::Success {
        body: body.to_string(),
    });
    assert_eq!(result, Ok("{\"a\":[1,true,null],\"b\":2}".to_string()));
}

#[test]
fn http_error_is_api_error_with_serialized_body() {
    let body = r#"{"error":{"message":"invalid api key"}}"#;
    let result = normalize(RawOutcome::HttpError {
        status: 401,
        body: body.to_string(),
    });
    match result {
        Err(ClientError::ApiError(message)) => {
            assert!(message.contains("invalid api key"));
            assert_eq!(message, canon(body));
        }
        other => panic!("expected an API error, got {:?}", other),
    }
}

#[test]
fn transport_failure_is_request_error_with_diagnostic() {
    let result = normalize(RawOutcome::Failure {
        diagnostic: "connection refused".to_string(),
    });
    assert_eq!(
        result,
        Err(ClientError::RequestError("connection refused".to_string()))
    );
}

#[test]
fn malformed_success_body_is_parse_error() {
    let result = normalize(RawOutcome::Success {
        body: "not json".to_string(),
    });
    assert_eq!(result, Err(ClientError::ParseError("not json".to_string())));
}

#[test]
fn malformed_error_body_is_parse_error() {
    let result = normalize(RawOutcome::HttpError {
        status: 500,
        body: "<html>oops</html>".to_string(),
    });
    assert_eq!(
        result,
        Err(ClientError::ParseError("<html>oops</html>".to_string()))
    );
}

#[test]
fn repeated_outcome_keeps_its_classification() {
    let raw = RawOutcome::Success {
        body: "{\"n\":1}".to_string(),
    };
    let first = normalize(raw.clone());
    let second = normalize(raw);
    assert!(first.is_ok() && second.is_ok());
    assert_eq!(first, second);

    let a = normalize(RawOutcome::Failure {
        diagnostic: "dns failure".to_string(),
    });
    let b = normalize(RawOutcome::Failure {
        diagnostic: "timeout".to_string(),
    });
    assert!(matches!(a, Err(ClientError::RequestError(_))));
    assert!(matches!(b, Err(ClientError::RequestError(_))));
}

#[test]
fn error_message_returns_the_payload() {
    let e = ClientError::ApiError("body text".to_string());
    assert_eq!(e.message().as_str(), "body text");
    let e = ClientError::ConfigError("missing".to_string());
    assert_eq!(e.message().as_str(), "missing");
}
