//! What the service answers on each of its two routes, once the upstream
//! call behind the route has ended.

use crate::error::LightsparkClientError;
use crate::error::PlaidError;
use crate::json::json_document;
use crate::plaid::upstream_result_of;
use crate::plaid::UpstreamOutcome;
use serde_json::Value;
use vstd::prelude::*;

verus! {

/// The status of an answer to a request that was served.
pub const STATUS_OK: u16 = 200;

/// The status of an answer to a request that failed upstream. It is the only
/// sign of failure that a client of the service ever sees.
pub const STATUS_INTERNAL_SERVER_ERROR: u16 = 500;

/// An answer of the service: a status and, where `body` is not `None`, a JSON
/// document to send with it.
#[derive(Debug)]
pub struct HttpReply {
    pub status: u16,
    pub body: Option<Value>,
}

/// The answer to `GET /health-check`, given how the probe of the
/// node-operator API ended: 200 where it succeeded and 500 where it failed,
/// without a body either way.
pub fn health_check(probe: &Result<(), LightsparkClientError>) -> (reply: HttpReply)
    ensures
        reply.status == (if probe is Ok {
            STATUS_OK
        } else {
            STATUS_INTERNAL_SERVER_ERROR
        }),
        reply.body is None,
{
    match probe {
        Ok(_) => HttpReply { status: STATUS_OK, body: None },
        Err(_) => HttpReply { status: STATUS_INTERNAL_SERVER_ERROR, body: None },
    }
}

/// What `POST /link` answers to what the aggregator client returned: 200
/// with the aggregator's document as it is, or 500 without a body.
pub open spec fn plaid_link_reply(result: Result<Value, PlaidError>, reply: HttpReply) -> bool {
    match result {
        Ok(document) => reply.status == STATUS_OK && reply.body == Some(document),
        Err(_) => reply.status == STATUS_INTERNAL_SERVER_ERROR && reply.body is None,
    }
}

/// The answer to `POST /link`, given what the aggregator client returned.
pub fn plaid_link(result: Result<Value, PlaidError>) -> (reply: HttpReply)
    ensures
        plaid_link_reply(result, reply),
{
    match result {
        Ok(document) => HttpReply { status: STATUS_OK, body: Some(document) },
        Err(_) => HttpReply { status: STATUS_INTERNAL_SERVER_ERROR, body: None },
    }
}

/// From the outcome of the one request to the answer of `POST /link`. Where
/// no answer arrived from the aggregator, or one whose body is not JSON, the
/// service answers 500 without a body. Where the body is JSON the service
/// answers 200 with that document, whatever status the aggregator gave.
pub proof fn lemma_link_reply_follows_outcome(
    outcome: UpstreamOutcome,
    result: Result<Value, PlaidError>,
    reply: HttpReply,
)
    requires
        upstream_result_of(outcome, result),
        plaid_link_reply(result, reply),
    ensures
        match outcome {
            UpstreamOutcome::Failed { message } => reply.status == STATUS_INTERNAL_SERVER_ERROR
                && reply.body is None,
            UpstreamOutcome::Responded { status, body } => match json_document(body@) {
                Some(document) => reply.status == STATUS_OK && reply.body == Some(document),
                None => reply.status == STATUS_INTERNAL_SERVER_ERROR && reply.body is None,
            },
        },
{
}

} // verus!
