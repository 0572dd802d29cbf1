//! The aggregator client: the requests it sends and what it makes of the
//! answers.
//!
//! The client does no I/O itself. `link_token` and `public_token_exchange`
//! say which request to post; the caller posts it, once, and hands the outcome
//! to `upstream_result`.

use crate::config::Config;
use crate::error::PlaidError;
use crate::json::decode;
use crate::json::json_document;
use crate::secret::SecretText;
use serde_json::Value;
use vstd::prelude::*;

verus! {

/// The aggregator environment that the client talks to.
#[derive(Clone, Copy, Debug, PartialEq, Eq, Structural)]
pub enum PlaidMode {
    Production,
    Sandbox,
    Development,
}

/// What a client of the service sends to have a link token made.
#[derive(Debug, PartialEq, Eq)]
pub struct PlaidLinkPayload {
    pub phone_number: String,
    pub client_user_id: String,
}

/// The end user on whose behalf a link token is requested.
#[derive(Debug, PartialEq, Eq)]
pub struct PlaidUser {
    pub client_user_id: String,
    pub phone_number: String,
}

/// The body of a link token request to the aggregator.
#[derive(Debug, PartialEq, Eq)]
pub struct PlaidLinkTokenRequest {
    pub client_id: String,
    pub secret: String,
    pub client_name: String,
    pub language: String,
    pub country_codes: Vec<String>,
    pub products: Vec<String>,
    pub user: PlaidUser,
}

/// What a client of the service sends to have a public token exchanged.
#[derive(Debug, PartialEq, Eq)]
pub struct PlaidTokenExchangePayload {
    pub public_token: String,
}

/// The body of a token exchange request to the aggregator.
#[derive(Debug, PartialEq, Eq)]
pub struct PlaidTokenExchangeRequest {
    pub client_id: String,
    pub client_secret: String,
    pub public_token: String,
}

/// The aggregator's answer to a link token request, for callers that want it
/// typed. The service itself relays the answer unread.
#[derive(Debug, PartialEq, Eq)]
pub struct PlaidLinkTokenResponse {
    pub link_token: String,
    pub expiration: String,
    pub request_id: String,
    pub hosted_link_url: Option<String>,
}

/// A request that the caller is to post, once and without retrying, giving
/// it no more time than the client's `request_timeout_secs`.
#[derive(Debug)]
pub struct PostRequest<B> {
    /// Where to post.
    pub url: String,
    /// The value of the `Content-Type` header.
    pub content_type: String,
    /// The body, to be sent as JSON.
    pub body: B,
}

/// How a posted request ended.
#[derive(Debug)]
pub enum UpstreamOutcome {
    /// The aggregator answered, with whatever status.
    Responded { status: u16, body: Vec<u8> },
    /// No answer arrived: the connection failed or the time ran out.
    Failed { message: String },
}

/// The aggregator client.
#[derive(Debug)]
pub struct Plaid {
    pub client_id: SecretText,
    pub base_uri: String,
    pub mode: PlaidMode,
    /// Seconds that a request to the aggregator may take.
    pub request_timeout_secs: u64,
    pub client_secret: SecretText,
}

/// A `PlaidLinkPayload` as specifications see it.
pub struct PlaidLinkPayloadView {
    pub phone_number: Seq<char>,
    pub client_user_id: Seq<char>,
}

/// A `PlaidUser` as specifications see it.
pub struct PlaidUserView {
    pub client_user_id: Seq<char>,
    pub phone_number: Seq<char>,
}

/// A `PlaidLinkTokenRequest` as specifications see it.
pub struct PlaidLinkTokenRequestView {
    pub client_id: Seq<char>,
    pub secret: Seq<char>,
    pub client_name: Seq<char>,
    pub language: Seq<char>,
    pub country_codes: Seq<Seq<char>>,
    pub products: Seq<Seq<char>>,
    pub user: PlaidUserView,
}

/// A `PlaidTokenExchangeRequest` as specifications see it.
pub struct PlaidTokenExchangeRequestView {
    pub client_id: Seq<char>,
    pub client_secret: Seq<char>,
    pub public_token: Seq<char>,
}

impl View for PlaidLinkPayload {
    type V = PlaidLinkPayloadView;

    open spec fn view(&self) -> PlaidLinkPayloadView {
        PlaidLinkPayloadView {
            phone_number: self.phone_number@,
            client_user_id: self.client_user_id@,
        }
    }
}

impl View for PlaidUser {
    type V = PlaidUserView;

    open spec fn view(&self) -> PlaidUserView {
        PlaidUserView { client_user_id: self.client_user_id@, phone_number: self.phone_number@ }
    }
}

impl View for PlaidLinkTokenRequest {
    type V = PlaidLinkTokenRequestView;

    open spec fn view(&self) -> PlaidLinkTokenRequestView {
        PlaidLinkTokenRequestView {
            client_id: self.client_id@,
            secret: self.secret@,
            client_name: self.client_name@,
            language: self.language@,
            country_codes: self.country_codes.deep_view(),
            products: self.products.deep_view(),
            user: self.user@,
        }
    }
}

impl View for PlaidTokenExchangeRequest {
    type V = PlaidTokenExchangeRequestView;

    open spec fn view(&self) -> PlaidTokenExchangeRequestView {
        PlaidTokenExchangeRequestView {
            client_id: self.client_id@,
            client_secret: self.client_secret@,
            public_token: self.public_token@,
        }
    }
}

/// Seconds that a request to the aggregator may take.
pub const REQUEST_TIMEOUT_SECS: u64 = 15;

/// The address of the link token operation under `base_uri`.
pub open spec fn link_token_url(base_uri: Seq<char>) -> Seq<char> {
    base_uri + "/link/token/create"@
}

/// The address of the token exchange operation under `base_uri`.
pub open spec fn public_token_exchange_url(base_uri: Seq<char>) -> Seq<char> {
    base_uri + "/item/public_token/exchange"@
}

/// The link token request for one end user: the service's credentials, its
/// display name, English, the United States, the `auth` product, and the
/// user as given.
pub open spec fn link_token_body(
    client_id: Seq<char>,
    client_secret: Seq<char>,
    payload: PlaidLinkPayloadView,
) -> PlaidLinkTokenRequestView {
    PlaidLinkTokenRequestView {
        client_id: client_id,
        secret: client_secret,
        client_name: "Fulminology Labs"@,
        language: "en"@,
        country_codes: seq!["US"@],
        products: seq!["auth"@],
        user: PlaidUserView {
            client_user_id: payload.client_user_id,
            phone_number: payload.phone_number,
        },
    }
}

/// What the client returns for an outcome: the decoded body of any answer,
/// whatever its status; an error with the transport's own description where
/// no answer arrived; an error where the answer's body is not JSON.
pub open spec fn upstream_result_of(
    outcome: UpstreamOutcome,
    result: Result<Value, PlaidError>,
) -> bool {
    match outcome {
        UpstreamOutcome::Responded { status, body } => match json_document(body@) {
            Some(document) => result == Ok::<Value, PlaidError>(document),
            None => result is Err && result->Err_0.message() == "error decoding response body"@,
        },
        UpstreamOutcome::Failed { message } => result is Err && result->Err_0.message()
            == message@,
    }
}

/// A vector that holds `text` and nothing else.
fn single(text: &str) -> (list: Vec<String>)
    ensures
        list.deep_view() == seq![text@],
{
    let mut list: Vec<String> = Vec::new();
    list.push(text.to_owned());
    assert(list.deep_view() =~= seq![text@]);
    list
}

impl Clone for Plaid {
    fn clone(&self) -> (copy: Plaid)
        ensures
            copy.client_id@ == self.client_id@,
            copy.base_uri@ == self.base_uri@,
            copy.mode == self.mode,
            copy.request_timeout_secs == self.request_timeout_secs,
            copy.client_secret@ == self.client_secret@,
    {
        Plaid {
            client_id: self.client_id.clone(),
            base_uri: self.base_uri.clone(),
            mode: self.mode,
            request_timeout_secs: self.request_timeout_secs,
            client_secret: self.client_secret.clone(),
        }
    }
}

impl Plaid {
    /// The client for the aggregator that `config` names: it talks to the
    /// sandbox and gives each request fifteen seconds.
    pub fn new(config: Config) -> (client: Plaid)
        ensures
            client.client_id@ == config.plaid_client_id@,
            client.base_uri@ == config.plaid_base_url@,
            client.mode == PlaidMode::Sandbox,
            client.request_timeout_secs == REQUEST_TIMEOUT_SECS,
            client.client_secret@ == config.plaid_client_secret@,
    {
        Plaid {
            client_id: config.plaid_client_id,
            base_uri: config.plaid_base_url,
            mode: PlaidMode::Sandbox,
            request_timeout_secs: REQUEST_TIMEOUT_SECS,
            client_secret: config.plaid_client_secret,
        }
    }

    /// The request that asks the aggregator for a link token for the user in
    /// `payload`.
    pub fn link_token(&self, payload: PlaidLinkPayload) -> (call: PostRequest<
        PlaidLinkTokenRequest,
    >)
        ensures
            call.url@ == link_token_url(self.base_uri@),
            call.content_type@ == "application/json"@,
            call.body@ == link_token_body(self.client_id@, self.client_secret@, payload@),
    {
        let mut url = self.base_uri.clone();
        url.append("/link/token/create");
        let request = PlaidLinkTokenRequest {
            client_name: "Fulminology Labs".to_owned(),
            client_id: self.client_id.expose_secret().clone(),
            secret: self.client_secret.expose_secret().clone(),
            country_codes: single("US"),
            products: single("auth"),
            language: "en".to_owned(),
            user: PlaidUser {
                client_user_id: payload.client_user_id,
                phone_number: payload.phone_number,
            },
        };
        PostRequest {
            url: url,
            content_type: "application/json".to_owned(),
            body: request,
        }
    }

    /// The request that asks the aggregator to exchange the public token in
    /// `payload` for an access token.
    pub fn public_token_exchange(&self, payload: PlaidTokenExchangePayload) -> (call: PostRequest<
        PlaidTokenExchangeRequest,
    >)
        ensures
            call.url@ == public_token_exchange_url(self.base_uri@),
            call.content_type@ == "application/json"@,
            call.body@ == (PlaidTokenExchangeRequestView {
                client_id: self.client_id@,
                client_secret: self.client_secret@,
                public_token: payload.public_token@,
            }),
    {
        let mut url = self.base_uri.clone();
        url.append("/item/public_token/exchange");
        let request = PlaidTokenExchangeRequest {
            client_id: self.client_id.expose_secret().clone(),
            client_secret: self.client_secret.expose_secret().clone(),
            public_token: payload.public_token,
        };
        PostRequest {
            url: url,
            content_type: "application/json".to_owned(),
            body: request,
        }
    }

    /// What either operation returns once its request has ended. The status
    /// of an answer plays no part: a body that is JSON is returned as it is.
    pub fn upstream_result(outcome: UpstreamOutcome) -> (result: Result<Value, PlaidError>)
        ensures
            upstream_result_of(outcome, result),
    {
        match outcome {
            UpstreamOutcome::Responded { status, body } => {
                decoded_result(decode(body.as_slice()))
            },
            UpstreamOutcome::Failed { message } => Err(PlaidError::UnexpectedError(message)),
        }
    }
}

/// What the client returns once the decoder has run on an answer's body: the
/// document, or an error that says the body could not be decoded.
pub fn decoded_result(decoded: Result<Value, serde_json::Error>) -> (result: Result<
    Value,
    PlaidError,
>)
    ensures
        match decoded {
            Ok(document) => result == Ok::<Value, PlaidError>(document),
            Err(_) => result is Err && result->Err_0.message() == "error decoding response body"@,
        },
{
    match decoded {
        Ok(document) => Ok(document),
        Err(_) => Err(PlaidError::UnexpectedError("error decoding response body".to_owned())),
    }
}

} // verus!
