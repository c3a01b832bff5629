use pushinator::{frame_body, notification_body, Header, PushinatorClient};

fn header(name: &str, value: &str) -> Header {
    Header { name: name.to_string(), value: value.to_string() }
}

fn test_client() -> PushinatorClient {
    PushinatorClient::new_test("test-api-token".to_string(), "http://127.0.0.1:1234".to_string())
}

#[test]
fn new_targets_the_production_endpoint() {
    let client = PushinatorClient::new("test-api-token".to_string());
    assert_eq!(client.endpoint(), "https://api.pushinator.com/api/v2/notifications/send");
    let request = client.build_request("test-channel-id", "Test notification");
    assert_eq!(request.url, "https://api.pushinator.com/api/v2/notifications/send");
}

#[test]
fn new_test_targets_the_given_base_url() {
    let client = test_client();
    assert_eq!(client.endpoint(), "http://127.0.0.1:1234/api/v2/notifications/send");
    let request = client.build_request("test-channel-id", "Test notification");
    assert_eq!(request.url, "http://127.0.0.1:1234/api/v2/notifications/send");
}

#[test]
fn base_url_is_joined_as_it_is() {
    let client = PushinatorClient::new_test("t".to_string(), String::new());
    assert_eq!(client.endpoint(), "/api/v2/notifications/send");
    let client = PushinatorClient::new_test("t".to_string(), "http://host/".to_string());
    assert_eq!(client.endpoint(), "http://host//api/v2/notifications/send");
}

#[test]
fn request_carries_the_three_headers_in_order() {
    let request = test_client().build_request("test-channel-id", "Test notification");
    assert_eq!(
        request.headers,
        vec![
            header("Authorization", "Bearer test-api-token"),
            header("Content-Type", "application/json"),
            header("User-Agent", "pushinator-rust/1.0"),
        ]
    );
    assert_eq!(test_client().headers(), request.headers);
}

#[test]
fn authorization_is_bearer_token_on_every_call() {
    let client = test_client();
    let calls = vec![("a", "first"), ("b", "second"), ("", ""), ("a", "first")];
    for (channel, message) in calls {
        let request = client.build_request(channel, message);
        let found: Vec<&Header> =
            request.headers.iter().filter(|h| h.name == "Authorization").collect();
        assert_eq!(found.len(), 1);
        assert_eq!(found[0].value, "Bearer test-api-token");
    }
}

#[test]
fn token_is_not_validated() {
    let request = PushinatorClient::new(String::new()).build_request("c", "m");
    assert_eq!(request.headers[0], header("Authorization", "Bearer "));
    let request = PushinatorClient::new("two words".to_string()).build_request("c", "m");
    assert_eq!(request.headers[0], header("Authorization", "Bearer two words"));
}

#[test]
fn body_holds_channel_and_message_under_their_names() {
    let request = test_client().build_request("test-channel-id", "Test notification");
    assert_eq!(
        request.body,
        "{\"channel_id\":\"test-channel-id\",\"content\":\"Test notification\"}"
    );
    assert_eq!(request.body, notification_body("test-channel-id", "Test notification"));
}

#[test]
fn body_is_what_the_serialiser_gives_for_the_object() {
    let inputs = vec![
        ("test-channel-id", "Test notification"),
        ("", ""),
        ("quote\"d", "back\\slash"),
        ("line\nbreak\ttab\r", "\u{0}\u{1f}\u{7f}"),
        ("caf\u{e9}", "\u{1F514} \u{4e2d}\u{6587}"),
    ];
    for (channel, message) in inputs {
        let mut object = serde_json::Map::new();
        object.insert("channel_id".to_string(), serde_json::Value::String(channel.to_string()));
        object.insert("content".to_string(), serde_json::Value::String(message.to_string()));
        let expected = serde_json::to_string(&serde_json::Value::Object(object)).unwrap();
        assert_eq!(notification_body(channel, message), expected);
    }
}

#[test]
fn body_parses_back_to_exactly_the_two_fields() {
    let inputs = vec![
        ("test-channel-id", "Test notification"),
        ("", ""),
        ("\"},\"extra\":\"x", "{\"content\":1}"),
        ("a\\", "\n\u{8}\u{c}"),
    ];
    for (channel, message) in inputs {
        let body = test_client().build_request(channel, message).body;
        let parsed: serde_json::Value = serde_json::from_str(&body).unwrap();
        let object = parsed.as_object().unwrap();
        assert_eq!(object.len(), 2);
        assert_eq!(object.get("channel_id").unwrap().as_str(), Some(channel));
        assert_eq!(object.get("content").unwrap().as_str(), Some(message));
    }
}

#[test]
fn special_characters_are_escaped() {
    assert_eq!(
        notification_body("a\"b", "c\\d\ne"),
        "{\"channel_id\":\"a\\\"b\",\"content\":\"c\\\\d\\ne\"}"
    );
    assert_eq!(
        notification_body("\u{1}", "\t"),
        "{\"channel_id\":\"\\u0001\",\"content\":\"\\t\"}"
    );
}

#[test]
fn frame_body_puts_the_values_in_as_they_are() {
    assert_eq!(frame_body("\"a\"", "\"b\""), "{\"channel_id\":\"a\",\"content\":\"b\"}");
    assert_eq!(frame_body("", ""), "{\"channel_id\":,\"content\":}");
    assert_eq!(frame_body("1", "null"), "{\"channel_id\":1,\"content\":null}");
}

#[test]
fn request_with_body_posts_the_body_unchanged() {
    let request = test_client().request_with_body("anything at all".to_string());
    assert_eq!(request.body, "anything at all");
    assert_eq!(request.url, "http://127.0.0.1:1234/api/v2/notifications/send");
    assert_eq!(request.headers.len(), 3);
}

#[test]
fn equal_inputs_build_equal_requests() {
    let first = test_client().build_request("test-channel-id", "Test notification");
    let second = test_client().build_request("test-channel-id", "Test notification");
    assert_eq!(first, second);
    let client = test_client();
    assert_eq!(client.build_request("x", "y"), client.build_request("x", "y"));
    assert_ne!(client.build_request("x", "y"), client.build_request("y", "x"));
}
