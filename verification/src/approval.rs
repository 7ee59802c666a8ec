//! Local approval requests and decisions.

use vstd::prelude::*;

use crate::ids::{OperationId, SessionId};
use crate::risk::RiskLevel;
use crate::time_model::Timestamp;

verus! {

/// A request for a local user's decision on one operation.
#[derive(Debug, Clone, PartialEq, Eq)]
pub struct ApprovalRequest {
    pub operation_id: OperationId,
    pub session_id: SessionId,
    pub reason: String,
    pub risk: RiskLevel,
    pub requested_at: Timestamp,
}

/// A local user's decision.
#[derive(Debug, Clone, PartialEq, Eq)]
pub enum ApprovalDecision {
    /// Approves the pending session or profile change.
    Approved { decided_at: Timestamp },
    /// Approves exactly one operation, granting no standing access.
    AllowOnce { decided_at: Timestamp },
    Denied { decided_at: Timestamp, reason: String },
}

} // verus!
