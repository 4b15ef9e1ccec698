//! Records of proxied Cursor runs: a per-request summary and the artifacts
//! captured along the way.

use vstd::prelude::*;

verus! {

/// A JSON document carried as-is.
#[verifier::external_type_specification]
#[verifier::external_body]
pub struct ExJsonValue(serde_json::Value);

/// `Clone` of a JSON document: a copy of it.  Nothing about the copy is
/// stated; the document has no view here.
pub assume_specification[ <serde_json::Value as std::clone::Clone>::clone ](value: &serde_json::Value) -> serde_json::Value;

/// What one proxied Cursor run did.
#[derive(Clone, Debug)]
pub struct CursorRunTraceSummary {
    pub request_id: String,
    pub conversation_id: Option<String>,
    pub route: String,
    pub model_id: Option<String>,
    pub reasoning_effort: Option<String>,
    pub fast: Option<bool>,
    pub status: String,
    pub request_bytes: i64,
    pub response_bytes: i64,
    pub response_event_count: i64,
    pub http_status: Option<i64>,
    pub received_at_ms: i64,
    pub first_response_at_ms: Option<i64>,
    pub finished_at_ms: Option<i64>,
    pub error_message: Option<String>,
}

/// A piece of data captured during a run.
#[derive(Clone, Debug)]
pub struct CursorRunTraceArtifact {
    pub seq: i64,
    pub artifact_type: String,
    pub source: String,
    pub metadata: serde_json::Value,
    pub created_at_ms: i64,
    pub data: Vec<u8>,
}

} // verus!
