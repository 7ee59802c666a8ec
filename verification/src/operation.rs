//! A single candidate action a remote session wants to perform. Its tool
//! arguments are carried through unchanged and never interpreted here.

use vstd::prelude::*;

use crate::ids::{OperationId, SessionId, WorkspaceId};
use crate::time_model::Timestamp;

verus! {

/// `serde_json::Value`, carried through unread.
#[verifier::external_type_specification]
#[verifier::external_body]
pub struct ExJsonValue(serde_json::Value);

/// `serde_json::Map`, carried through unread.
#[verifier::external_type_specification]
#[verifier::external_body]
#[verifier::reject_recursive_types(K)]
#[verifier::reject_recursive_types(V)]
pub struct ExJsonMap<K, V>(serde_json::Map<K, V>);

/// `serde_json::Value::clone` (derived), which the derived `Clone` of the
/// types below calls: nothing is claimed of the copy.
pub assume_specification[ <serde_json::Value as Clone>::clone ](v: &serde_json::Value) -> serde_json::Value;

/// `serde_json::Map::clone`: nothing is claimed of the copy.
pub assume_specification[ <serde_json::Map<String, serde_json::Value> as Clone>::clone ](
    m: &serde_json::Map<String, serde_json::Value>,
) -> serde_json::Map<String, serde_json::Value>;

/// One requested tool call.
#[derive(Debug, Clone, PartialEq, Eq)]
pub struct OperationRequest {
    pub operation_id: OperationId,
    pub session_id: SessionId,
    pub workspace_id: WorkspaceId,
    /// The tool name exactly as the MCP tool registry names it.
    pub tool_name: String,
    /// Forwarded unchanged as the MCP `tools/call` arguments.
    pub arguments: serde_json::Map<String, serde_json::Value>,
    pub target_path: Option<String>,
    pub requested_at: Timestamp,
}

/// The error of a failed operation.
#[derive(Debug, Clone, PartialEq, Eq)]
pub struct OperationError {
    pub code: String,
    pub message: String,
}

/// The outcome of an operation.
#[derive(Debug, Clone, PartialEq)]
pub struct OperationResult {
    pub operation_id: OperationId,
    pub success: bool,
    pub payload: serde_json::Value,
    pub error: Option<OperationError>,
    pub duration_ms: u64,
}

} // verus!
