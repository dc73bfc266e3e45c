use discord_api::{DiscordClientError, SecretToken, WebhookMessage, Webhooks};

#[test]
fn build_without_content_fails() {
    let result = WebhookMessage::builder().build();
    match result {
        Ok(_) => panic!("a builder with no content must not build"),
        Err(DiscordClientError::InvalidWebhookMessageBuilder(text)) => {
            assert_eq!(text, "message field required");
        }
        Err(DiscordClientError::FailedToSendRequest(_)) => {
            panic!("no request was attempted, so no transport error can occur")
        }
    }
}

#[test]
fn set_content_round_trip() {
    let message = WebhookMessage::builder()
        .set_content("a plain announcement".to_string())
        .build()
        .expect("a builder with content set must build");
    assert_eq!(message.content(), "a plain announcement");
}

#[test]
fn set_content_overwrites() {
    let message = WebhookMessage::builder()
        .set_content("first".to_string())
        .set_content("second".to_string())
        .build()
        .expect("a builder with content set must build");
    assert_eq!(message.content(), "second");
}

#[test]
fn payload_for_plain_text() {
    let message = WebhookMessage::builder()
        .set_content("hello".to_string())
        .build()
        .unwrap();
    assert_eq!(message.json_payload(), "{\"content\":\"hello\"}");
}

#[test]
fn payload_escapes_quotes_and_backslashes() {
    let message = WebhookMessage::builder()
        .set_content("say \"hi\" to C:\\temp".to_string())
        .build()
        .unwrap();
    assert_eq!(
        message.json_payload(),
        "{\"content\":\"say \\\"hi\\\" to C:\\\\temp\"}"
    );
}

#[test]
fn payload_escapes_control_characters() {
    let message = WebhookMessage::builder()
        .set_content("\u{8}\t\n\u{c}\r\u{1}\u{1f}".to_string())
        .build()
        .unwrap();
    assert_eq!(
        message.json_payload(),
        "{\"content\":\"\\b\\t\\n\\f\\r\\u0001\\u001f\"}"
    );
}

#[test]
fn payload_is_an_object_with_only_the_content_key() {
    let text = "two\nlines with a \"quote\" and a \\backslash\\";
    let message = WebhookMessage::builder()
        .set_content(text.to_string())
        .build()
        .unwrap();
    let payload = message.json_payload();
    let value: serde_json::Value = serde_json::from_str(&payload).unwrap();
    let object = value.as_object().expect("the payload must be a JSON object");
    assert_eq!(object.len(), 1);
    assert_eq!(
        object.get("content").and_then(|v| v.as_str()),
        Some(text)
    );
}

#[test]
fn webhook_url_substitutes_id_and_token_verbatim() {
    let client = Webhooks::new(
        "123".to_string(),
        SecretToken::new("abc".to_string()),
    );
    assert_eq!(
        client.webhook_url(),
        "https://discord.com/api/webhooks/123/abc"
    );
}

#[test]
fn prepared_request_carries_url_and_body() {
    let message = WebhookMessage::builder()
        .set_content("hello".to_string())
        .build()
        .unwrap();
    let client = Webhooks::new(
        "123".to_string(),
        SecretToken::new("abc".to_string()),
    );
    let request = client.prepare_execute_webhook(&message);
    assert_eq!(request.url, "https://discord.com/api/webhooks/123/abc");
    assert_eq!(request.body, "{\"content\":\"hello\"}");
}

#[test]
fn debug_output_redacts_the_token() {
    let client = Webhooks::new(
        "123".to_string(),
        SecretToken::new("hunter2-token-value".to_string()),
    );
    let rendered = format!("{:?}", client);
    assert!(!rendered.contains("hunter2-token-value"));
    assert!(rendered.contains("REDACTED"));
}

#[test]
fn transport_error_becomes_request_failed() {
    let transport_error = reqwest::Client::new()
        .post("this is not a url")
        .build()
        .expect_err("an invalid URL must fail to build");
    let result = discord_api::send_outcome(Err(transport_error));
    assert!(matches!(
        result,
        Err(DiscordClientError::FailedToSendRequest(_))
    ));
}

#[test]
fn transport_success_stays_success() {
    assert!(discord_api::send_outcome(Ok(())).is_ok());
}

#[test]
fn error_description_names_the_missing_field() {
    let err = WebhookMessage::builder()
        .build()
        .expect_err("a builder with no content must not build");
    assert_eq!(
        err.describe(),
        "Invalid Webhook Message Builder: message field required"
    );
}

#[test]
fn transport_error_without_url_hides_the_token() {
    let webhook_url =
        reqwest::Url::parse("https://discord.com/api/webhooks/123/hunter2-token-value").unwrap();
    let carrying_url = reqwest::Client::new()
        .post("this is not a url")
        .build()
        .expect_err("an invalid URL must fail to build")
        .with_url(webhook_url);
    assert!(format!("{:?}", carrying_url).contains("hunter2-token-value"));
    let stripped = carrying_url.without_url();
    assert!(!format!("{:?}", stripped).contains("hunter2-token-value"));
    let result = discord_api::send_outcome(Err(stripped));
    let wrapped = result.expect_err("a transport error must be wrapped");
    assert!(!format!("{:?}", wrapped).contains("hunter2-token-value"));
}
