//! Bodies of the two endpoints' responses.
use vstd::prelude::*;

verus! {

/// A JSON document, carried through unread.
#[verifier::external_type_specification]
#[verifier::external_body]
pub struct ExJsonValue(serde_json::Value);

/// Body of the deletion endpoint's response.
#[derive(Debug)]
pub struct DeletionResult {
    pub message: Option<String>,
    pub error: Option<String>,
}

/// Body of the transfer endpoint's response: one free-form result per chain
/// and an optional top-level error.
#[derive(Debug)]
pub struct TransferResult {
    pub optimism: Option<serde_json::Value>,
    pub fantom: Option<serde_json::Value>,
    pub avalanche: Option<serde_json::Value>,
    pub error: Option<String>,
}

} // verus!
