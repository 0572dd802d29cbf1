use link_relay::config::Config;
use link_relay::error::PlaidError;
use link_relay::plaid::decoded_result;
use link_relay::plaid::Plaid;
use link_relay::plaid::PlaidLinkPayload;
use link_relay::plaid::PlaidLinkTokenRequest;
use link_relay::plaid::PlaidLinkTokenResponse;
use link_relay::plaid::PlaidMode;
use link_relay::plaid::PlaidTokenExchangePayload;
use link_relay::plaid::PlaidTokenExchangeRequest;
use link_relay::plaid::PlaidUser;
use link_relay::plaid::UpstreamOutcome;
use link_relay::plaid::REQUEST_TIMEOUT_SECS;
use link_relay::secret::SecretText;
use serde_json::Value;

fn client() -> Plaid {
    Plaid {
        client_id: SecretText::new("plaid-client".to_string()),
        base_uri: "https://sandbox.plaid.com".to_string(),
        mode: PlaidMode::Sandbox,
        request_timeout_secs: 15,
        client_secret: SecretText::new("plaid-secret".to_string()),
    }
}

fn payload() -> PlaidLinkPayload {
    PlaidLinkPayload {
        phone_number: "+15551234567".to_string(),
        client_user_id: "user-1".to_string(),
    }
}

fn message_of(result: Result<Value, PlaidError>) -> String {
    match result {
        Err(PlaidError::UnexpectedError(message)) => message,
        Ok(document) => panic!("expected an error, got {}", document),
    }
}

#[test]
fn new_takes_the_aggregator_settings_of_the_configuration() {
    let vars = vec![
        ("PLAID_BASE_URL".to_string(), "https://production.plaid.com".to_string()),
        ("PLAID_CLIENT_ID".to_string(), "id-9".to_string()),
        ("PLAID_CLIENT_SECRET".to_string(), "secret-9".to_string()),
        ("LIGHTSPARK_API_CLIENT_SECRET".to_string(), "other".to_string()),
    ];
    let plaid = Plaid::new(Config::new_from_env(&vars));
    assert_eq!(plaid.base_uri, "https://production.plaid.com");
    assert_eq!(plaid.client_id.expose_secret(), "id-9");
    assert_eq!(plaid.client_secret.expose_secret(), "secret-9");
    assert_eq!(plaid.mode, PlaidMode::Sandbox);
    assert_eq!(plaid.request_timeout_secs, 15);
    assert_eq!(REQUEST_TIMEOUT_SECS, 15);
}

#[test]
fn link_token_posts_to_the_link_token_address() {
    let call = client().link_token(payload());
    assert_eq!(call.url, "https://sandbox.plaid.com/link/token/create");
    assert_eq!(call.content_type, "application/json");
}

#[test]
fn link_token_sends_the_fixed_selections_and_the_user() {
    let call = client().link_token(payload());
    assert_eq!(
        call.body,
        PlaidLinkTokenRequest {
            client_id: "plaid-client".to_string(),
            secret: "plaid-secret".to_string(),
            client_name: "Fulminology Labs".to_string(),
            language: "en".to_string(),
            country_codes: vec!["US".to_string()],
            products: vec!["auth".to_string()],
            user: PlaidUser {
                client_user_id: "user-1".to_string(),
                phone_number: "+15551234567".to_string(),
            },
        }
    );
}

#[test]
fn link_token_does_not_mix_up_the_two_user_fields() {
    let call = client().link_token(PlaidLinkPayload {
        phone_number: "phone".to_string(),
        client_user_id: "id".to_string(),
    });
    assert_eq!(call.body.user.phone_number, "phone");
    assert_eq!(call.body.user.client_user_id, "id");
    assert_eq!(call.body.client_id, "plaid-client");
    assert_eq!(call.body.secret, "plaid-secret");
}

#[test]
fn the_base_address_is_used_as_it_is() {
    let mut plaid = client();
    plaid.base_uri = "http://localhost:9/".to_string();
    assert_eq!(plaid.link_token(payload()).url, "http://localhost:9//link/token/create");
    plaid.base_uri = String::new();
    assert_eq!(plaid.link_token(payload()).url, "/link/token/create");
    assert_eq!(
        plaid.public_token_exchange(PlaidTokenExchangePayload { public_token: "t".to_string() }).url,
        "/item/public_token/exchange"
    );
}

#[test]
fn public_token_exchange_posts_the_credentials_and_the_token() {
    let call = client()
        .public_token_exchange(PlaidTokenExchangePayload { public_token: "public-abc".to_string() });
    assert_eq!(call.url, "https://sandbox.plaid.com/item/public_token/exchange");
    assert_eq!(call.content_type, "application/json");
    assert_eq!(
        call.body,
        PlaidTokenExchangeRequest {
            client_id: "plaid-client".to_string(),
            client_secret: "plaid-secret".to_string(),
            public_token: "public-abc".to_string(),
        }
    );
}

#[test]
fn a_copy_of_a_client_has_the_same_fields() {
    let mut plaid = client();
    plaid.request_timeout_secs = 3;
    let copy = plaid.clone();
    assert_eq!(copy.request_timeout_secs, 3);
    assert_eq!(copy.base_uri, plaid.base_uri);
    assert_eq!(copy.client_id.expose_secret(), "plaid-client");
    assert_eq!(copy.client_secret.expose_secret(), "plaid-secret");
    assert_eq!(copy.mode, PlaidMode::Sandbox);
}

#[test]
fn an_answer_with_a_json_body_is_returned_as_it_is() {
    let body = br#"{"link_token":"x","expiration":"t","request_id":"r"}"#.to_vec();
    let expected: Value = serde_json::from_slice(&body).expect("json");
    let result = Plaid::upstream_result(UpstreamOutcome::Responded { status: 200, body });
    let document = result.expect("a document");
    assert_eq!(document, expected);
    assert_eq!(document["link_token"], Value::String("x".to_string()));
    assert_eq!(document["expiration"], Value::String("t".to_string()));
    assert_eq!(document["request_id"], Value::String("r".to_string()));
    assert_eq!(document.as_object().expect("an object").len(), 3);
}

#[test]
fn the_status_of_an_answer_plays_no_part() {
    let body = br#"{"error_code":"INVALID_API_KEYS","error_type":"INVALID_INPUT"}"#.to_vec();
    for status in [200u16, 201, 204, 301, 400, 401, 404, 429, 500, 503] {
        let result =
            Plaid::upstream_result(UpstreamOutcome::Responded { status, body: body.clone() });
        let document = result.expect("a document");
        assert_eq!(document["error_code"], Value::String("INVALID_API_KEYS".to_string()));
    }
}

#[test]
fn any_json_value_is_a_document() {
    for (text, expected) in [
        ("null", Value::Null),
        ("true", Value::Bool(true)),
        (" 12 ", Value::from(12)),
        ("\"s\"", Value::String("s".to_string())),
        ("[]", Value::Array(Vec::new())),
        ("[1,\"a\"]", Value::Array(vec![Value::from(1), Value::String("a".to_string())])),
    ] {
        let result = Plaid::upstream_result(UpstreamOutcome::Responded {
            status: 200,
            body: text.as_bytes().to_vec(),
        });
        assert_eq!(result.expect("a document"), expected);
    }
}

#[test]
fn a_body_that_is_not_json_is_an_error() {
    for body in [&b""[..], b"<html>", b"{", b"{\"a\":1} trailing", b"{'a':1}", b"\xff\xfe"] {
        let result =
            Plaid::upstream_result(UpstreamOutcome::Responded { status: 200, body: body.to_vec() });
        assert_eq!(message_of(result), "error decoding response body");
    }
}

#[test]
fn a_failed_transport_is_returned_with_its_own_words() {
    let result = Plaid::upstream_result(UpstreamOutcome::Failed {
        message: "operation timed out".to_string(),
    });
    assert_eq!(message_of(result), "operation timed out");
    let result = Plaid::upstream_result(UpstreamOutcome::Failed { message: String::new() });
    assert_eq!(message_of(result), "");
}

#[test]
fn decoded_result_keeps_the_document_and_replaces_the_decoder_error() {
    let good: Result<Value, serde_json::Error> = serde_json::from_str("{\"a\":[1,2]}");
    let expected: Value = serde_json::from_str("{\"a\":[1,2]}").expect("json");
    assert_eq!(decoded_result(good).expect("a document"), expected);
    let bad: Result<Value, serde_json::Error> = serde_json::from_str("{\"a\":");
    assert_eq!(message_of(decoded_result(bad)), "error decoding response body");
}

#[test]
fn an_error_gives_its_description() {
    let error = PlaidError::UnexpectedError("connection refused".to_string());
    assert_eq!(error.to_text(), "connection refused");
}

#[test]
fn a_typed_link_token_response_holds_its_fields() {
    let response = PlaidLinkTokenResponse {
        link_token: "x".to_string(),
        expiration: "t".to_string(),
        request_id: "r".to_string(),
        hosted_link_url: None,
    };
    assert_eq!(response.link_token, "x");
    assert_eq!(response.expiration, "t");
    assert_eq!(response.request_id, "r");
    assert_eq!(response.hosted_link_url, None);
}
