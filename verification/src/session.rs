//! Session data model.
//!
//! A `Session` is the transport-era subject record of a remote request. Its
//! status transitions are owned elsewhere; this module holds the plain record
//! and the one question every consumer asks of it: is it usable now?

use vstd::prelude::*;

use crate::capability::{CapabilityProfile, CapabilitySet};
use crate::ids::{DeviceId, SessionId, WorkspaceId};
use crate::time_model::Timestamp;
use crate::workspace_set::WorkspaceIdSet;

verus! {

/// The status of a transport-era session record.
#[derive(Debug, Clone, Copy, PartialEq, Eq, Structural, Hash)]
pub enum SessionStatus {
    Unpaired,
    Paired,
    Disconnected,
    Connected,
    PendingApproval,
    Active,
    Suspended,
    Expired,
    Revoked,
}

/// The `Debug` text of each status (its variant name).
pub open spec fn status_name(status: SessionStatus) -> Seq<char> {
    match status {
        SessionStatus::Unpaired => "Unpaired"@,
        SessionStatus::Paired => "Paired"@,
        SessionStatus::Disconnected => "Disconnected"@,
        SessionStatus::Connected => "Connected"@,
        SessionStatus::PendingApproval => "PendingApproval"@,
        SessionStatus::Active => "Active"@,
        SessionStatus::Suspended => "Suspended"@,
        SessionStatus::Expired => "Expired"@,
        SessionStatus::Revoked => "Revoked"@,
    }
}

impl SessionStatus {
    /// The variant name, as `Debug` prints it.
    pub fn name(&self) -> (name: &'static str)
        ensures
            name@ == status_name(*self),
    {
        match self {
            SessionStatus::Unpaired => "Unpaired",
            SessionStatus::Paired => "Paired",
            SessionStatus::Disconnected => "Disconnected",
            SessionStatus::Connected => "Connected",
            SessionStatus::PendingApproval => "PendingApproval",
            SessionStatus::Active => "Active",
            SessionStatus::Suspended => "Suspended",
            SessionStatus::Expired => "Expired",
            SessionStatus::Revoked => "Revoked",
        }
    }
}

/// Whether an operation additionally needs interactive local approval beyond
/// holding the capability. One standard policy exists.
#[derive(Debug, Clone, Copy, PartialEq, Eq, Structural, Hash)]
pub enum ApprovalPolicy {
    Standard,
}

/// A transport-era session record.
#[derive(Debug, Clone, PartialEq, Eq)]
pub struct Session {
    pub session_id: SessionId,
    pub device_id: DeviceId,
    pub remote_principal: String,
    pub workspace_ids: WorkspaceIdSet,
    pub capability_profile: CapabilityProfile,
    pub effective_capabilities: CapabilitySet,
    pub task_scope: String,
    pub issued_at: Timestamp,
    pub approved_at: Option<Timestamp>,
    pub expires_at: Timestamp,
    pub risk_policy_version: u32,
    pub approval_policy: ApprovalPolicy,
    pub status: SessionStatus,
}

/// The mathematical content of a [`Session`].
pub struct SessionView {
    pub session_id: SessionId,
    pub device_id: DeviceId,
    pub remote_principal: Seq<char>,
    pub workspace_ids: Set<WorkspaceId>,
    pub capability_profile: CapabilityProfile,
    pub effective_capabilities: CapabilitySet,
    pub task_scope: Seq<char>,
    pub issued_at: Timestamp,
    pub approved_at: Option<Timestamp>,
    pub expires_at: Timestamp,
    pub risk_policy_version: u32,
    pub approval_policy: ApprovalPolicy,
    pub status: SessionStatus,
}

impl View for Session {
    type V = SessionView;

    open spec fn view(&self) -> SessionView {
        SessionView {
            session_id: self.session_id,
            device_id: self.device_id,
            remote_principal: self.remote_principal@,
            workspace_ids: self.workspace_ids@,
            capability_profile: self.capability_profile,
            effective_capabilities: self.effective_capabilities,
            task_scope: self.task_scope@,
            issued_at: self.issued_at,
            approved_at: self.approved_at,
            expires_at: self.expires_at,
            risk_policy_version: self.risk_policy_version,
            approval_policy: self.approval_policy,
            status: self.status,
        }
    }
}

impl SessionView {
    /// Active and not yet at its expiry.
    pub open spec fn usable_at(self, now: Timestamp) -> bool {
        self.status == SessionStatus::Active && now.unix_nanos < self.expires_at.unix_nanos
    }
}

impl Session {
    /// Whether the session may be used at `now`: it must be `Active` and
    /// `now` must be strictly before its expiry.
    pub fn is_usable_at(&self, now: Timestamp) -> (usable: bool)
        ensures
            usable == self@.usable_at(now),
    {
        self.status == SessionStatus::Active && now.unix_nanos < self.expires_at.unix_nanos
    }
}

} // verus!
