//! The append-only audit trail's record of one policy decision and, when
//! allowed, its execution outcome. A record holds metadata only: never
//! secret material, never project contents, never full tool arguments.

use vstd::prelude::*;

use crate::capability::Capability;
use crate::error::CompanionError;
use crate::ids::{OperationId, SessionId, WorkspaceId};
use crate::risk::RiskLevel;
use crate::time_model::Timestamp;

verus! {

/// What the policy decided.
#[derive(Debug, Clone, Copy, PartialEq, Eq, Structural, Hash)]
pub enum PolicyResultKind {
    Allow,
    Deny,
    RequireApproval,
}

/// What a local user decided on an operation that needed approval.
#[derive(Debug, Clone, Copy, PartialEq, Eq, Structural, Hash)]
pub enum ApprovalDecisionKind {
    Approved,
    AllowOnce,
    Denied,
}

/// Whether and how the operation ran.
#[derive(Debug, Clone, Copy, PartialEq, Eq, Structural, Hash)]
pub enum ExecutionStatus {
    NotExecuted,
    Success,
    Failed,
}

/// One audit record.
#[derive(Debug, Clone, PartialEq, Eq)]
pub struct AuditEvent {
    pub operation_id: OperationId,
    pub timestamp: Timestamp,
    pub session_id: Option<SessionId>,
    pub workspace_id: Option<WorkspaceId>,
    pub remote_principal: Option<String>,
    pub requested_tool: String,
    pub capability: Option<Capability>,
    pub risk: Option<RiskLevel>,
    pub policy_result: PolicyResultKind,
    pub approval_decision: Option<ApprovalDecisionKind>,
    pub execution_status: ExecutionStatus,
    pub error_class: Option<String>,
    pub duration_ms: Option<u64>,
}

/// Audit store failures.
#[derive(Debug, Clone, PartialEq, Eq)]
pub enum AuditError {
    NotFound,
    Storage(String),
}

impl CompanionError for AuditError {
    open spec fn spec_code(&self) -> Seq<char> {
        match self {
            AuditError::NotFound => "AUDIT_NOT_FOUND"@,
            AuditError::Storage(_) => "AUDIT_STORAGE"@,
        }
    }

    open spec fn spec_retryable(&self) -> bool {
        false
    }

    fn code(&self) -> (code: &'static str) {
        match self {
            AuditError::NotFound => "AUDIT_NOT_FOUND",
            AuditError::Storage(_) => "AUDIT_STORAGE",
        }
    }

    fn retryable(&self) -> (r: bool) {
        false
    }
}

/// The outcome of an update of an existing audit record, given how many
/// rows the update changed: none means there was no record to update.
pub fn update_outcome(changed_rows: usize) -> (r: Result<(), AuditError>)
    ensures
        r is Ok <==> changed_rows > 0,
        r is Err ==> r->Err_0 == AuditError::NotFound,
{
    if changed_rows == 0 {
        Err(AuditError::NotFound)
    } else {
        Ok(())
    }
}

} // verus!
