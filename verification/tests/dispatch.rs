use serde_json::Value;
use tweety_rs::api::client::{finish_request, Method, TransportOutcome, TweetyClient};
use tweety_rs::api::error::TweetyError;

fn ready_client() -> TweetyClient {
    TweetyClient::new("ck", "at", "cks", "ats", "", "", "")
}

fn reply(status: u16, headers: Vec<(&str, &str)>, body: &str) -> TransportOutcome {
    TransportOutcome::Reply {
        status,
        headers: headers
            .into_iter()
            .map(|(k, v)| (k.to_string(), v.to_string()))
            .collect(),
        body: body.to_string(),
    }
}

#[test]
fn missing_credentials_for_any_empty_oauth_field() {
    let cases = [
        ("", "at", "cks", "ats"),
        ("ck", "", "cks", "ats"),
        ("ck", "at", "", "ats"),
        ("ck", "at", "cks", ""),
        ("", "", "", ""),
    ];
    for (ck, at, cks, ats) in cases {
        let client = TweetyClient::new(ck, at, cks, ats, "", "", "");
        assert!(!client.is_initialized());
        let result =
            client.prepare_request("https://api.x.com/2/users/1/bookmarks", Method::Get, None);
        assert!(matches!(result, Err(TweetyError::MissingCredentials)));
    }
}

#[test]
fn initialized_with_all_four_fields() {
    assert!(ready_client().is_initialized());
    let proxied = TweetyClient::new("ck", "at", "cks", "ats", "http://proxy:8080", "u", "p");
    assert!(proxied.is_initialized());
}

#[test]
fn invalid_url_is_rejected_before_any_transport() {
    let client = ready_client();
    for bad in ["", "not a url", "/relative/path", "http://"] {
        match client.prepare_request(bad, Method::Get, None) {
            Err(TweetyError::UrlParseError(message)) => assert!(!message.is_empty()),
            other => panic!("expected UrlParseError, got {:?}", other.is_ok()),
        }
    }
}

#[test]
fn credential_check_wins_over_bad_url() {
    let client = TweetyClient::new("", "", "", "", "", "", "");
    let result = client.prepare_request("not a url", Method::Post, None);
    assert!(matches!(result, Err(TweetyError::MissingCredentials)));
}

#[test]
fn prepared_url_is_normalized() {
    let client = ready_client();
    let prepared = client
        .prepare_request("HTTPS://API.X.COM/2/users/1/bookmarks", Method::Get, None)
        .unwrap();
    assert_eq!(prepared.url, "https://api.x.com/2/users/1/bookmarks");
    assert_eq!(prepared.method, Method::Get);
}

#[test]
fn get_and_delete_never_transmit_a_body() {
    let client = ready_client();
    for method in [Method::Get, Method::Delete] {
        let prepared = client
            .prepare_request(
                "https://api.x.com/2/users/1/bookmarks",
                method,
                Some("{\"ignored\":true}".to_string()),
            )
            .unwrap();
        assert!(prepared.body.is_none());
    }
}

#[test]
fn post_and_put_transmit_the_supplied_body() {
    let client = ready_client();
    for method in [Method::Post, Method::Put] {
        let prepared = client
            .prepare_request(
                "https://api.x.com/2/users/1/bookmarks",
                method,
                Some("{\"tweet_id\":\"7\"}".to_string()),
            )
            .unwrap();
        assert_eq!(prepared.body.as_deref(), Some("{\"tweet_id\":\"7\"}"));
    }
}

#[test]
fn post_without_a_body_sends_an_empty_payload() {
    let client = ready_client();
    let prepared = client
        .prepare_request("https://api.x.com/2/users/1/bookmarks", Method::Post, None)
        .unwrap();
    assert_eq!(prepared.body.as_deref(), Some(""));
}

#[test]
fn success_reply_yields_body_and_headers() {
    let outcome = reply(200, vec![("x-rate-limit", "15")], "{\"id\": \"123\"}");
    let envelope = finish_request(outcome).unwrap();
    let expected: Value = serde_json::from_str("{\"id\": \"123\"}").unwrap();
    assert_eq!(envelope.response, expected);
    assert_eq!(
        envelope.headers,
        vec![("x-rate-limit".to_string(), "15".to_string())]
    );
}

#[test]
fn not_found_reply_yields_api_error_with_status_and_body() {
    let outcome = reply(404, vec![("x-rate-limit", "15")], "{\"error\": \"not found\"}");
    match finish_request(outcome) {
        Err(TweetyError::ApiError {
            status,
            body,
            body_text,
            headers,
        }) => {
            assert_eq!(status, 404);
            assert_eq!(format!("{}", status), "404");
            assert!(body_text.contains("not found"));
            let expected: Value = serde_json::from_str("{\"error\": \"not found\"}").unwrap();
            assert_eq!(body, expected);
            assert_eq!(
                headers,
                vec![("x-rate-limit".to_string(), "15".to_string())]
            );
        }
        _ => panic!("expected ApiError"),
    }
}

#[test]
fn api_error_message_embeds_status_and_body() {
    let outcome = reply(404, vec![], "{\"error\": \"not found\"}");
    let error = finish_request(outcome).unwrap_err();
    let message = error.message();
    assert_eq!(message, "HTTP 404: {\"error\": \"not found\"}");
    assert!(message.contains("404"));
    assert!(message.contains("not found"));
}

#[test]
fn error_messages_name_their_failure_class() {
    let network = finish_request(TransportOutcome::Failure {
        message: "boom".to_string(),
    })
    .unwrap_err();
    assert_eq!(network.message(), "network error: boom");

    let client = ready_client();
    let parse = client
        .prepare_request("not a url", Method::Get, None)
        .unwrap_err();
    assert!(parse.message().starts_with("URL parse error: "));

    let missing = TweetyClient::new("", "", "", "", "", "", "")
        .prepare_request("https://api.x.com/2", Method::Get, None)
        .unwrap_err();
    assert_eq!(missing.message(), "missing credentials");
}

#[test]
fn non_json_success_body_is_a_parse_error() {
    let outcome = reply(200, vec![], "not json");
    match finish_request(outcome) {
        Err(TweetyError::JsonParseError(message)) => assert!(!message.is_empty()),
        _ => panic!("expected JsonParseError"),
    }
}

#[test]
fn non_json_failure_body_is_a_parse_error_too() {
    let outcome = reply(500, vec![], "<html>oops</html>");
    assert!(matches!(
        finish_request(outcome),
        Err(TweetyError::JsonParseError(_))
    ));
}

#[test]
fn success_window_is_exactly_2xx() {
    for status in [200u16, 204, 299] {
        let outcome = reply(status, vec![], "{}");
        assert!(finish_request(outcome).is_ok());
    }
    for status in [199u16, 300, 301, 500] {
        let outcome = reply(status, vec![], "{}");
        match finish_request(outcome) {
            Err(TweetyError::ApiError { status: st, .. }) => assert_eq!(st, status),
            _ => panic!("expected ApiError"),
        }
    }
}

#[test]
fn transport_failure_becomes_network_error() {
    let outcome = TransportOutcome::Failure {
        message: "connection timed out".to_string(),
    };
    match finish_request(outcome) {
        Err(TweetyError::NetworkError(message)) => assert_eq!(message, "connection timed out"),
        _ => panic!("expected NetworkError"),
    }
}

#[test]
fn duplicate_header_names_collapse_to_last_seen() {
    let outcome = reply(200, vec![("a", "1"), ("b", "2"), ("a", "3")], "{}");
    let envelope = finish_request(outcome).unwrap();
    assert_eq!(
        envelope.headers,
        vec![
            ("a".to_string(), "3".to_string()),
            ("b".to_string(), "2".to_string()),
        ]
    );
}

#[test]
fn identical_calls_yield_equal_envelopes() {
    let client = ready_client();
    let make_outcome = || reply(200, vec![("x-rate-limit", "15")], "{\"id\": \"123\"}");
    let prepared_one = client
        .prepare_request(
            "https://api.x.com/2/tweets/9/hidden",
            Method::Put,
            Some("{\"hidden\":true}".to_string()),
        )
        .unwrap();
    let prepared_two = client
        .prepare_request(
            "https://api.x.com/2/tweets/9/hidden",
            Method::Put,
            Some("{\"hidden\":true}".to_string()),
        )
        .unwrap();
    assert_eq!(prepared_one.url, prepared_two.url);
    assert_eq!(prepared_one.method, prepared_two.method);
    assert_eq!(prepared_one.body, prepared_two.body);

    let envelope_one = finish_request(make_outcome()).unwrap();
    let envelope_two = finish_request(make_outcome()).unwrap();
    assert_eq!(envelope_one.response, envelope_two.response);
    assert_eq!(envelope_one.headers, envelope_two.headers);
}
