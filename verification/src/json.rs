//! JSON documents, decoded by `serde_json`.
//!
//! The service relays the aggregator's answers without reading them, so a
//! document stays a `serde_json::Value` that Verus cannot see into.
//! Everything in this file is trusted: stated, not proved.

use serde_json::Value;
use vstd::prelude::*;

verus! {

/// `serde_json::Value`, declared so that it can stand in fields and
/// signatures.
#[verifier::external_type_specification]
#[verifier::external_body]
pub struct ExValue(Value);

/// `serde_json::Error`, declared so that the decoder can hand it back.
#[verifier::external_type_specification]
#[verifier::external_body]
pub struct ExJsonError(serde_json::Error);

/// The document that `bytes` spell out, or `None` where they are not one
/// complete JSON text.
pub uninterp spec fn json_document(bytes: Seq<u8>) -> Option<Value>;

/// Decodes a whole buffer with `serde_json::from_slice`. The outcome depends
/// on the bytes alone: the same bytes always give the same document, or
/// always fail.
#[verifier::external_body]
pub(crate) fn decode(bytes: &[u8]) -> (decoded: Result<Value, serde_json::Error>)
    ensures
        match decoded {
            Ok(document) => json_document(bytes@) == Some(document),
            Err(_) => json_document(bytes@) is None,
        },
{
    serde_json::from_slice::<Value>(bytes)
}

} // verus!
