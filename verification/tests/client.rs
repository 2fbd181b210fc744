use openai_client::apis::{Choice, Message, Role};
use openai_client::error::ClientError;
use openai_client::openai::{ApiType, Auth, OpenAI};
use openai_client::requests::{Multipart, Requests};

#[test]
fn construction_never_fails() {
    let auth = Auth::new("sk-test");
    let client = OpenAI::new(auth, "https://api.example.test/v1/chat", ApiType::Chat);
    assert_eq!(client.auth.api_key, "sk-test");
    assert_eq!(client.api_url, "https://api.example.test/v1/chat");
    assert_eq!(client.api_type, ApiType::Chat);

    let empty = OpenAI::new(Auth::new(""), "", ApiType::Images);
    assert_eq!(empty.auth.api_key, "");
    assert_eq!(empty.api_type, ApiType::Images);
}

#[test]
fn auth_from_env_value() {
    let found = Auth::from_env_value(Some("sk-live".to_string()));
    assert_eq!(found.unwrap().api_key, "sk-live");

    let missing = Auth::from_env_value(None);
    assert_eq!(
        missing.unwrap_err(),
        ClientError::ConfigError("Missing API_KEY".to_string())
    );
}

#[test]
fn api_type_recognizes_the_four_tokens() {
    let cases = [
        ("audio", ApiType::Audio),
        ("chat", ApiType::Chat),
        ("completions", ApiType::Completions),
        ("images", ApiType::Images),
    ];
    for (token, expected) in cases {
        let got = ApiType::from_env_value(Some(token.to_string()));
        assert_eq!(got, Ok(expected));
    }
}

#[test]
fn api_type_fails_closed_on_unrecognized_value() {
    let err = ClientError::ConfigError("Invalid or missing API_TYPE".to_string());
    assert_eq!(
        ApiType::from_env_value(Some("video".to_string())),
        Err(err.clone())
    );
    assert_eq!(
        ApiType::from_env_value(Some("Chat".to_string())),
        Err(err.clone())
    );
    assert_eq!(ApiType::from_env_value(None), Err(err));
}

#[test]
fn set_proxy_rejects_malformed_spec() {
    let client = OpenAI::new(Auth::new("k"), "https://api.example.test/", ApiType::Chat);
    let result = client.set_proxy("ftp://proxy.example.test:8080");
    assert_eq!(
        result.map(|_| ()),
        Err(ClientError::ConfigError(
            "Invalid proxy specification".to_string()
        ))
    );

    let client = OpenAI::new(Auth::new("k"), "https://api.example.test/", ApiType::Chat);
    assert!(client.set_proxy("user-without-password@host").is_err());
}

#[test]
fn set_proxy_accepts_valid_spec() {
    let client = OpenAI::new(Auth::new("k"), "https://api.example.test/", ApiType::Chat);
    let reconfigured = client.set_proxy("http://127.0.0.1:8080").unwrap();
    assert_eq!(reconfigured.auth.api_key, "k");
    assert_eq!(reconfigured.api_url, "https://api.example.test/");
    assert_eq!(reconfigured.api_type, ApiType::Chat);
}

#[test]
fn proxy_settings_prefer_http_over_https() {
    let client = OpenAI::new(Auth::new("k"), "https://api.example.test/", ApiType::Chat);
    // With the http setting present, the malformed https one is never looked at.
    let result = client.with_proxy_settings(
        Some("http://127.0.0.1:8080".to_string()),
        Some("ftp://bad".to_string()),
    );
    assert!(result.is_ok());

    // Without it, the https setting is the one applied.
    let client = OpenAI::new(Auth::new("k"), "https://api.example.test/", ApiType::Chat);
    let result = client.with_proxy_settings(None, Some("ftp://bad".to_string()));
    assert_eq!(
        result.map(|_| ()),
        Err(ClientError::ConfigError(
            "Invalid proxy specification".to_string()
        ))
    );
}

#[test]
fn proxy_settings_absent_leave_client_unchanged() {
    let client = OpenAI::new(Auth::new("k"), "https://api.example.test/", ApiType::Chat);
    let unchanged = client.with_proxy_settings(None, None).unwrap();
    assert_eq!(unchanged.auth.api_key, "k");
    assert_eq!(unchanged.api_url, "https://api.example.test/");
    assert_eq!(unchanged.api_type, ApiType::Chat);
}

#[test]
fn get_against_unreachable_host_is_request_error() {
    // Nothing listens on the discard port of the loopback address, so the
    // transport fails without a response and without a long wait.
    let client = OpenAI::new(Auth::new("sk-test"), "http://127.0.0.1:9/v1/chat", ApiType::Chat);
    let first = client.get();
    match first {
        Err(ClientError::RequestError(diagnostic)) => assert!(!diagnostic.is_empty()),
        other => panic!("expected a request error, got {:?}", other),
    }
    // Repeating the call yields the same classification.
    let second = client.get();
    assert!(matches!(second, Err(ClientError::RequestError(_))));
}

#[test]
fn post_against_unreachable_host_is_request_error() {
    let client = OpenAI::new(Auth::new("sk-test"), "http://127.0.0.1:9/v1/chat", ApiType::Chat);
    let result = client.post(r#"{"messages":[{"role":"user","content":"hi"}]}"#);
    assert!(matches!(result, Err(ClientError::RequestError(_))));
}

#[test]
fn post_multipart_against_unreachable_host_is_request_error() {
    let client = OpenAI::new(Auth::new("sk-test"), "http://127.0.0.1:9/v1/audio", ApiType::Audio);
    let payload = Multipart::new(b"--b\r\n--b--\r\n".to_vec(), "b".to_string());
    assert_eq!(payload.boundary, "b");
    let result = client.post_multipart(payload);
    assert!(matches!(result, Err(ClientError::RequestError(_))));
}

#[test]
fn records_hold_their_fields() {
    let message = Message {
        role: Role::User,
        content: "hi".to_string(),
    };
    let choice = Choice {
        text: None,
        index: 0,
        logprobs: None,
        finish_reason: Some("stop".to_string()),
        message: Some(message.clone()),
    };
    assert_eq!(choice.index, 0);
    assert_eq!(choice.message.unwrap().content, "hi");
    assert_eq!(message.role, Role::User);
}
