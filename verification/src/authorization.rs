//! Explicit authorization authority: [`AccessGrant`] and
//! [`AuthorizationLease`].
//!
//! Transport connectivity and authorization authority have different
//! lifecycles, so they are different types here. Nothing in this module
//! mentions transport state: no transport event can reach a grant, because
//! there is no field for one to reach. A grant carries authority only while
//! it is `Active` and inside its own expiry; a lease is always narrower than
//! the grant it was cut from, and every check of a lease re-checks its grant.

use vstd::prelude::*;

use crate::capability::{kind_rank, Capability, CapabilityProfile, CapabilitySet};
use crate::ids::{DeviceId, GrantId, LeaseId, OperationId, SessionId, WorkspaceId};
use crate::session::{status_name, ApprovalPolicy, Session, SessionStatus, SessionView};
use crate::time_model::{representable, Duration, Timestamp};
use crate::workspace_set::WorkspaceIdSet;

verus! {

/// How much the Gateway can vouch for the identity behind a principal. Only
/// `Unverified` exists: nothing here performs a remote identity handshake.
#[derive(Debug, Clone, Copy, PartialEq, Eq, Structural, Hash)]
pub enum PrincipalAssurance {
    /// The name arrived over an untrusted transport and was not verified.
    Unverified,
}

/// The remote principal a grant is issued to.
#[derive(Debug, Clone, PartialEq, Eq)]
pub struct AuthorizationPrincipal {
    pub name: String,
    pub assurance: PrincipalAssurance,
}

/// The mathematical content of an [`AuthorizationPrincipal`].
pub struct PrincipalView {
    pub name: Seq<char>,
    pub assurance: PrincipalAssurance,
}

impl View for AuthorizationPrincipal {
    type V = PrincipalView;

    open spec fn view(&self) -> PrincipalView {
        PrincipalView { name: self.name@, assurance: self.assurance }
    }
}

impl AuthorizationPrincipal {
    /// The only principal this build can assert: an unverified,
    /// transport-supplied name.
    pub fn unverified(name: &str) -> (p: AuthorizationPrincipal)
        ensures
            p@ == (PrincipalView { name: name@, assurance: PrincipalAssurance::Unverified }),
    {
        AuthorizationPrincipal {
            name: String::from_str(name),
            assurance: PrincipalAssurance::Unverified,
        }
    }

    /// Whether the principal is unverified (always, in this build).
    pub fn is_unverified(&self) -> (r: bool)
        ensures
            r == (self.assurance == PrincipalAssurance::Unverified),
    {
        match self.assurance {
            PrincipalAssurance::Unverified => true,
        }
    }

    /// A copy with the same name and assurance.
    pub fn duplicate(&self) -> (p: AuthorizationPrincipal)
        ensures
            p@ == self@,
    {
        AuthorizationPrincipal { name: self.name.clone(), assurance: self.assurance }
    }

    /// Whether both principals have the same name and assurance.
    pub fn same_as(&self, other: &AuthorizationPrincipal) -> (r: bool)
        ensures
            r == (self@ == other@),
    {
        self.name == other.name && self.assurance == other.assurance
    }
}

/// Whether a grant authorizes ongoing work or exactly one lease.
#[derive(Debug, Clone, Copy, PartialEq, Eq, Structural, Hash)]
pub enum GrantKind {
    /// Leases may be issued until the grant's own expiry.
    Standing,
    /// At most one lease may ever be issued.
    OneShot,
}

/// The authorization lifecycle. Every status is reached by a local decision
/// or by the grant's own clock, never by a transport event.
#[derive(Debug, Clone, Copy, PartialEq, Eq, Structural, Hash)]
pub enum AuthorizationStatus {
    /// Awaiting a local decision; carries no authority.
    PendingApproval,
    /// Approved; the only status that carries authority.
    Active,
    /// Withdrawn for now by a local user; resumable, never automatically.
    Suspended,
    /// Past its expiry. Terminal.
    Expired,
    /// Withdrawn locally. Terminal.
    Revoked,
    /// A one-shot grant whose lease was spent. Terminal.
    Consumed,
}

/// Terminal statuses are never left.
pub open spec fn status_is_terminal(status: AuthorizationStatus) -> bool {
    status == AuthorizationStatus::Expired || status == AuthorizationStatus::Revoked || status
        == AuthorizationStatus::Consumed
}

impl AuthorizationStatus {
    /// Whether the status is terminal: `Expired`, `Revoked` or `Consumed`.
    pub fn is_terminal(self) -> (r: bool)
        ensures
            r == status_is_terminal(self),
    {
        match self {
            AuthorizationStatus::Expired | AuthorizationStatus::Revoked
            | AuthorizationStatus::Consumed => true,
            _ => false,
        }
    }
}

/// What a local approval decision is asked to authorize.
#[derive(Debug, Clone, PartialEq, Eq)]
pub struct GrantRequest {
    /// The transport-era record this grant answers; correlation only.
    pub subject_session_id: SessionId,
    pub device_id: DeviceId,
    pub principal: AuthorizationPrincipal,
    pub workspace_ids: WorkspaceIdSet,
    pub capability_profile: CapabilityProfile,
    pub task_scope: String,
    pub kind: GrantKind,
    /// Already bounded by the local TTL policy.
    pub lifetime: Duration,
}

/// The explicit authorization record.
#[derive(Debug, Clone, PartialEq, Eq)]
pub struct AccessGrant {
    pub grant_id: GrantId,
    pub subject_session_id: SessionId,
    pub device_id: DeviceId,
    pub principal: AuthorizationPrincipal,
    pub workspace_ids: WorkspaceIdSet,
    pub capability_profile: CapabilityProfile,
    /// What the approver granted; never widened implicitly.
    pub effective_capabilities: CapabilitySet,
    pub task_scope: String,
    pub kind: GrantKind,
    pub issued_at: Timestamp,
    pub approved_at: Option<Timestamp>,
    pub expires_at: Timestamp,
    pub revoked_at: Option<Timestamp>,
    pub revocation_reason: Option<String>,
    pub consumed_at: Option<Timestamp>,
    /// The single lease a one-shot grant has already cut.
    pub issued_lease_id: Option<LeaseId>,
    pub risk_policy_version: u32,
    pub approval_policy: ApprovalPolicy,
    pub status: AuthorizationStatus,
    /// Set only on grants mapped from a transport-era session row.
    pub migrated_from_session_id: Option<SessionId>,
    /// Provenance note for mapped grants.
    pub migration_note: Option<String>,
}

/// The text of an optional string.
pub open spec fn opt_text(s: Option<String>) -> Option<Seq<char>> {
    match s {
        Some(t) => Some(t@),
        None => None,
    }
}

/// The mathematical content of an [`AccessGrant`].
pub struct GrantView {
    pub grant_id: GrantId,
    pub subject_session_id: SessionId,
    pub device_id: DeviceId,
    pub principal: PrincipalView,
    pub workspace_ids: Set<WorkspaceId>,
    pub capability_profile: CapabilityProfile,
    pub effective_capabilities: CapabilitySet,
    pub task_scope: Seq<char>,
    pub kind: GrantKind,
    pub issued_at: Timestamp,
    pub approved_at: Option<Timestamp>,
    pub expires_at: Timestamp,
    pub revoked_at: Option<Timestamp>,
    pub revocation_reason: Option<Seq<char>>,
    pub consumed_at: Option<Timestamp>,
    pub issued_lease_id: Option<LeaseId>,
    pub risk_policy_version: u32,
    pub approval_policy: ApprovalPolicy,
    pub status: AuthorizationStatus,
    pub migrated_from_session_id: Option<SessionId>,
    pub migration_note: Option<Seq<char>>,
}

impl View for AccessGrant {
    type V = GrantView;

    open spec fn view(&self) -> GrantView {
        GrantView {
            grant_id: self.grant_id,
            subject_session_id: self.subject_session_id,
            device_id: self.device_id,
            principal: self.principal@,
            workspace_ids: self.workspace_ids@,
            capability_profile: self.capability_profile,
            effective_capabilities: self.effective_capabilities,
            task_scope: self.task_scope@,
            kind: self.kind,
            issued_at: self.issued_at,
            approved_at: self.approved_at,
            expires_at: self.expires_at,
            revoked_at: self.revoked_at,
            revocation_reason: opt_text(self.revocation_reason),
            consumed_at: self.consumed_at,
            issued_lease_id: self.issued_lease_id,
            risk_policy_version: self.risk_policy_version,
            approval_policy: self.approval_policy,
            status: self.status,
            migrated_from_session_id: self.migrated_from_session_id,
            migration_note: opt_text(self.migration_note),
        }
    }
}

impl GrantView {
    /// The grant's own clock says it is past its lifetime.
    pub open spec fn expired_at(self, now: Timestamp) -> bool {
        now.unix_nanos >= self.expires_at.unix_nanos
    }

    /// The grant may serve as authority at `now`.
    pub open spec fn usable_at(self, now: Timestamp) -> bool {
        self.status == AuthorizationStatus::Active && !self.expired_at(now)
    }

    /// A one-shot grant that has cut its lease may cut no other.
    pub open spec fn may_issue_another_lease(self) -> bool {
        self.kind == GrantKind::Standing || self.issued_lease_id is None
    }

    /// The refusal that explains why a grant is not usable at `now`.
    pub open spec fn state_error(self, now: Timestamp) -> AuthorizationError {
        match self.status {
            AuthorizationStatus::Revoked => AuthorizationError::GrantRevoked,
            AuthorizationStatus::Consumed => AuthorizationError::GrantConsumed,
            AuthorizationStatus::Expired => AuthorizationError::GrantExpired {
                expires_at: self.expires_at,
            },
            _ => if self.expired_at(now) {
                AuthorizationError::GrantExpired { expires_at: self.expires_at }
            } else {
                AuthorizationError::GrantNotApproved { status: self.status }
            },
        }
    }
}

/// The member of `a` missing from `b` with the smallest id, when one exists.
pub open spec fn least_missing_workspace(a: Set<WorkspaceId>, b: Set<WorkspaceId>) -> WorkspaceId {
    choose|w: WorkspaceId|
        a.contains(w) && !b.contains(w) && forall|v: WorkspaceId|
            #[trigger] a.contains(v) && v.value() < w.value() ==> b.contains(v)
}

/// The member of `a` missing from `b` that comes first in name order.
pub open spec fn least_missing_capability(a: CapabilitySet, b: CapabilitySet) -> Capability {
    choose|c: Capability|
        a.spec_contains(c) && !b.spec_contains(c) && forall|d: Capability|
            kind_rank(d) < kind_rank(c) && #[trigger] a.spec_contains(d) ==> b.spec_contains(d)
}

/// A workspace missing from `b`, minimal in `a`, is the least missing one.
pub proof fn lemma_least_missing_workspace_unique(a: Set<WorkspaceId>, b: Set<WorkspaceId>, w: WorkspaceId)
    requires
        a.contains(w),
        !b.contains(w),
        forall|v: WorkspaceId| #[trigger] a.contains(v) && v.value() < w.value() ==> b.contains(v),
    ensures
        least_missing_workspace(a, b) == w,
{
    let c = least_missing_workspace(a, b);
    assert(a.contains(c) && !b.contains(c));
    if c.value() < w.value() {
        assert(b.contains(c));
    } else if w.value() < c.value() {
        assert(b.contains(w));
    }
    WorkspaceId::lemma_value_determines(c, w);
}

/// A capability missing from `b`, first in `a`, is the least missing one.
pub proof fn lemma_least_missing_capability_unique(a: CapabilitySet, b: CapabilitySet, c: Capability)
    requires
        a.spec_contains(c),
        !b.spec_contains(c),
        forall|d: Capability|
            kind_rank(d) < kind_rank(c) && #[trigger] a.spec_contains(d) ==> b.spec_contains(d),
    ensures
        least_missing_capability(a, b) == c,
{
    let x = least_missing_capability(a, b);
    assert(a.spec_contains(x) && !b.spec_contains(x));
    if kind_rank(x) < kind_rank(c) {
        assert(b.spec_contains(x));
    } else if kind_rank(c) < kind_rank(x) {
        assert(b.spec_contains(c));
    }
}

/// Every member of `a` is a member of `b`.
pub open spec fn capabilities_within(a: CapabilitySet, b: CapabilitySet) -> bool {
    forall|c: Capability| #[trigger] a.spec_contains(c) ==> b.spec_contains(c)
}

impl AccessGrant {
    /// A freshly recorded remote access request. It starts
    /// `PendingApproval` and therefore carries no authority: a request that
    /// arrived over a transport is not an approval. Its expiry is `now` plus
    /// the requested lifetime, which must be a representable instant.
    pub fn requested(request: GrantRequest, now: Timestamp) -> (grant: AccessGrant)
        requires
            representable(now.unix_nanos + request.lifetime.nanos),
        ensures
            grant@.subject_session_id == request.subject_session_id,
            grant@.device_id == request.device_id,
            grant@.principal == request.principal@,
            grant@.workspace_ids == request.workspace_ids@,
            grant@.capability_profile == request.capability_profile,
            forall|c: Capability| #[trigger]
                grant@.effective_capabilities.spec_contains(c)
                    <==> request.capability_profile.grants(c),
            grant@.task_scope == request.task_scope@,
            grant@.kind == request.kind,
            grant@.issued_at == now,
            grant@.approved_at is None,
            grant@.expires_at.unix_nanos == now.unix_nanos + request.lifetime.nanos,
            grant@.revoked_at is None,
            grant@.revocation_reason is None,
            grant@.consumed_at is None,
            grant@.issued_lease_id is None,
            grant@.risk_policy_version == 1,
            grant@.approval_policy == ApprovalPolicy::Standard,
            grant@.status == AuthorizationStatus::PendingApproval,
            grant@.migrated_from_session_id is None,
            grant@.migration_note is None,
    {
        let effective_capabilities = request.capability_profile.effective_capabilities();
        AccessGrant {
            grant_id: GrantId::new(),
            subject_session_id: request.subject_session_id,
            device_id: request.device_id,
            principal: request.principal,
            effective_capabilities,
            workspace_ids: request.workspace_ids,
            capability_profile: request.capability_profile,
            task_scope: request.task_scope,
            kind: request.kind,
            issued_at: now,
            approved_at: None,
            expires_at: now.plus(request.lifetime),
            revoked_at: None,
            revocation_reason: None,
            consumed_at: None,
            issued_lease_id: None,
            risk_policy_version: 1,
            approval_policy: ApprovalPolicy::Standard,
            status: AuthorizationStatus::PendingApproval,
            migrated_from_session_id: None,
            migration_note: None,
        }
    }

    /// Whether `now` is at or past the grant's expiry.
    pub fn is_expired_at(&self, now: Timestamp) -> (r: bool)
        ensures
            r == self@.expired_at(now),
    {
        now.unix_nanos >= self.expires_at.unix_nanos
    }

    /// Whether the grant may serve as authority at `now`: it must be
    /// `Active` and not expired.
    pub fn is_usable_at(&self, now: Timestamp) -> (r: bool)
        ensures
            r == self@.usable_at(now),
    {
        self.status == AuthorizationStatus::Active && !self.is_expired_at(now)
    }

    /// Whether the grant's status is terminal.
    pub fn is_terminal(&self) -> (r: bool)
        ensures
            r == status_is_terminal(self.status),
    {
        self.status.is_terminal()
    }

    /// Whether the grant covers `workspace_id`.
    pub fn allows_workspace(&self, workspace_id: &WorkspaceId) -> (r: bool)
        ensures
            r == self@.workspace_ids.contains(*workspace_id),
    {
        self.workspace_ids.contains(workspace_id)
    }

    /// Whether the grant covers `capability`.
    pub fn allows_capability(&self, capability: &Capability) -> (r: bool)
        ensures
            r == self.effective_capabilities.spec_contains(*capability),
    {
        self.effective_capabilities.contains(capability)
    }

    /// A standing grant may cut further leases; a one-shot grant only until
    /// its single lease is issued.
    pub fn may_issue_another_lease(&self) -> (r: bool)
        ensures
            r == self@.may_issue_another_lease(),
    {
        self.kind == GrantKind::Standing || self.issued_lease_id.is_none()
    }
}

/// The bounded authorization a single unit of work needs.
#[derive(Debug, Clone, PartialEq, Eq)]
pub struct AuthorizationLease {
    pub lease_id: LeaseId,
    pub grant_id: GrantId,
    pub subject_session_id: SessionId,
    pub device_id: DeviceId,
    pub principal: AuthorizationPrincipal,
    pub workspace_ids: WorkspaceIdSet,
    pub capabilities: CapabilitySet,
    pub task_scope: String,
    pub issued_at: Timestamp,
    pub expires_at: Timestamp,
    pub consumed_at: Option<Timestamp>,
    /// The operation that spent the lease.
    pub consumed_by_operation: Option<OperationId>,
}

/// The mathematical content of an [`AuthorizationLease`].
pub struct LeaseView {
    pub lease_id: LeaseId,
    pub grant_id: GrantId,
    pub subject_session_id: SessionId,
    pub device_id: DeviceId,
    pub principal: PrincipalView,
    pub workspace_ids: Set<WorkspaceId>,
    pub capabilities: CapabilitySet,
    pub task_scope: Seq<char>,
    pub issued_at: Timestamp,
    pub expires_at: Timestamp,
    pub consumed_at: Option<Timestamp>,
    pub consumed_by_operation: Option<OperationId>,
}

impl View for AuthorizationLease {
    type V = LeaseView;

    open spec fn view(&self) -> LeaseView {
        LeaseView {
            lease_id: self.lease_id,
            grant_id: self.grant_id,
            subject_session_id: self.subject_session_id,
            device_id: self.device_id,
            principal: self.principal@,
            workspace_ids: self.workspace_ids@,
            capabilities: self.capabilities,
            task_scope: self.task_scope@,
            issued_at: self.issued_at,
            expires_at: self.expires_at,
            consumed_at: self.consumed_at,
            consumed_by_operation: self.consumed_by_operation,
        }
    }
}

/// The scope a caller asks a lease to cover.
#[derive(Debug, Clone, PartialEq, Eq)]
pub struct LeaseRequest {
    pub workspace_ids: WorkspaceIdSet,
    pub capabilities: CapabilitySet,
    /// Requested lifetime; the lease is clamped to the grant's expiry.
    pub lifetime: Duration,
}

impl LeaseView {
    /// Unspent and before its own expiry.
    pub open spec fn valid_at(self, now: Timestamp) -> bool {
        self.consumed_at is None && now.unix_nanos < self.expires_at.unix_nanos
    }
}

/// Why a lease may not be issued against `grant` for `request` at `now`, in
/// the order the checks are made; `None` when it may.
pub open spec fn lease_refusal(
    grant: GrantView,
    workspaces: Set<WorkspaceId>,
    capabilities: CapabilitySet,
    lifetime: Duration,
    now: Timestamp,
) -> Option<AuthorizationError> {
    if lifetime.nanos <= 0 {
        Some(AuthorizationError::NonPositiveLifetime)
    } else if workspaces == Set::<WorkspaceId>::empty() {
        Some(AuthorizationError::EmptyScope)
    } else if !grant.usable_at(now) {
        Some(grant.state_error(now))
    } else if !grant.may_issue_another_lease() {
        Some(AuthorizationError::OneShotLeaseAlreadyIssued { lease_id: grant.issued_lease_id->0 })
    } else if !workspaces.subset_of(grant.workspace_ids) {
        Some(
            AuthorizationError::WorkspaceNotGranted {
                workspace_id: least_missing_workspace(workspaces, grant.workspace_ids),
            },
        )
    } else if !capabilities_within(capabilities, grant.effective_capabilities) {
        Some(
            AuthorizationError::CapabilityNotGranted {
                capability: least_missing_capability(capabilities, grant.effective_capabilities),
            },
        )
    } else {
        None
    }
}

/// The earlier of two instants given in nanoseconds.
pub open spec fn earlier_nanos(a: int, b: int) -> int {
    if a <= b {
        a
    } else {
        b
    }
}

/// Whether `lease` is what issuing against `grant` for the given scope at
/// `now` produces (its fresh id aside).
pub open spec fn is_issued_lease(
    lease: LeaseView,
    grant: GrantView,
    workspaces: Set<WorkspaceId>,
    capabilities: CapabilitySet,
    lifetime: Duration,
    now: Timestamp,
) -> bool {
    &&& lease.grant_id == grant.grant_id
    &&& lease.subject_session_id == grant.subject_session_id
    &&& lease.device_id == grant.device_id
    &&& lease.principal == grant.principal
    &&& lease.workspace_ids == workspaces
    &&& lease.capabilities == capabilities
    &&& lease.task_scope == grant.task_scope
    &&& lease.issued_at == now
    &&& lease.expires_at.unix_nanos == earlier_nanos(
        now.unix_nanos + lifetime.nanos,
        grant.expires_at.unix_nanos as int,
    )
    &&& lease.consumed_at is None
    &&& lease.consumed_by_operation is None
}

/// Why `lease` may not be spent under `grant` at `now`, in the order the
/// checks are made; `None` when it may.
pub open spec fn lease_invalidity(lease: LeaseView, grant: GrantView, now: Timestamp) -> Option<
    AuthorizationError,
> {
    if lease.grant_id != grant.grant_id {
        Some(AuthorizationError::ForeignGrant)
    } else if !grant.usable_at(now) {
        Some(grant.state_error(now))
    } else if lease.device_id != grant.device_id {
        Some(AuthorizationError::DeviceBindingMismatch)
    } else if lease.principal != grant.principal {
        Some(AuthorizationError::PrincipalMismatch)
    } else if lease.expires_at.unix_nanos > grant.expires_at.unix_nanos {
        Some(AuthorizationError::LeaseOutlivesGrant)
    } else if !lease.workspace_ids.subset_of(grant.workspace_ids) {
        Some(
            AuthorizationError::WorkspaceNotGranted {
                workspace_id: least_missing_workspace(lease.workspace_ids, grant.workspace_ids),
            },
        )
    } else if !capabilities_within(lease.capabilities, grant.effective_capabilities) {
        Some(
            AuthorizationError::CapabilityNotGranted {
                capability: least_missing_capability(
                    lease.capabilities,
                    grant.effective_capabilities,
                ),
            },
        )
    } else if lease.consumed_at is Some {
        Some(AuthorizationError::LeaseAlreadyConsumed { lease_id: lease.lease_id })
    } else if !lease.valid_at(now) {
        Some(AuthorizationError::LeaseExpired { lease_id: lease.lease_id })
    } else {
        None
    }
}

/// Why `lease` may not be marked spent at `now`; `None` when it may.
pub open spec fn consume_refusal(lease: LeaseView, now: Timestamp) -> Option<AuthorizationError> {
    if lease.consumed_at is Some {
        Some(AuthorizationError::LeaseAlreadyConsumed { lease_id: lease.lease_id })
    } else if !lease.valid_at(now) {
        Some(AuthorizationError::LeaseExpired { lease_id: lease.lease_id })
    } else {
        None
    }
}

impl AuthorizationLease {
    /// Issues a lease against `grant`. Fails closed if the lifetime is not
    /// positive, the scope is empty, the grant is not usable, a one-shot
    /// grant already cut its lease, or the scope exceeds the grant. The
    /// lease expires at `now + lifetime` or at the grant's expiry, whichever
    /// is earlier.
    pub fn issued_for(grant: &AccessGrant, request: LeaseRequest, now: Timestamp) -> (r: Result<
        AuthorizationLease,
        AuthorizationError,
    >)
        requires
            lease_refusal(
                grant@,
                request.workspace_ids@,
                request.capabilities,
                request.lifetime,
                now,
            ) is None ==> representable(now.unix_nanos + request.lifetime.nanos),
        ensures
            match r {
                Ok(lease) => {
                    &&& lease_refusal(
                        grant@,
                        request.workspace_ids@,
                        request.capabilities,
                        request.lifetime,
                        now,
                    ) is None
                    &&& is_issued_lease(
                        lease@,
                        grant@,
                        request.workspace_ids@,
                        request.capabilities,
                        request.lifetime,
                        now,
                    )
                },
                Err(e) => lease_refusal(
                    grant@,
                    request.workspace_ids@,
                    request.capabilities,
                    request.lifetime,
                    now,
                ) == Some(e),
            },
    {
        if request.lifetime.nanos <= 0 {
            return Err(AuthorizationError::NonPositiveLifetime);
        }
        if request.workspace_ids.is_empty() {
            return Err(AuthorizationError::EmptyScope);
        }
        if !grant.is_usable_at(now) {
            return Err(AuthorizationError::from_grant_state(grant, now));
        }
        if !grant.may_issue_another_lease() {
            let lease_id = match grant.issued_lease_id {
                Some(id) => id,
                None => {
                    return Err(AuthorizationError::GrantConsumed);
                },
            };
            return Err(AuthorizationError::OneShotLeaseAlreadyIssued { lease_id });
        }
        match request.workspace_ids.first_missing_from(&grant.workspace_ids) {
            Some(workspace_id) => {
                proof {
                    lemma_least_missing_workspace_unique(
                        request.workspace_ids@,
                        grant.workspace_ids@,
                        workspace_id,
                    );
                }
                return Err(AuthorizationError::WorkspaceNotGranted { workspace_id });
            },
            None => {},
        }
        match request.capabilities.first_missing_from(&grant.effective_capabilities) {
            Some(capability) => {
                proof {
                    lemma_least_missing_capability_unique(
                        request.capabilities,
                        grant.effective_capabilities,
                        capability,
                    );
                }
                return Err(AuthorizationError::CapabilityNotGranted { capability });
            },
            None => {},
        }
        let expires_at = now.plus(request.lifetime).earliest(grant.expires_at);
        Ok(
            AuthorizationLease {
                lease_id: LeaseId::new(),
                grant_id: grant.grant_id,
                subject_session_id: grant.subject_session_id,
                device_id: grant.device_id,
                principal: grant.principal.duplicate(),
                workspace_ids: request.workspace_ids,
                capabilities: request.capabilities,
                task_scope: grant.task_scope.clone(),
                issued_at: now,
                expires_at,
                consumed_at: None,
                consumed_by_operation: None,
            },
        )
    }

    /// Whether this lease, by itself, may still be spent at `now`: unspent
    /// and before its own expiry. Its grant must be checked too, with
    /// [`AuthorizationLease::validate_against`].
    pub fn is_valid_at(&self, now: Timestamp) -> (r: bool)
        ensures
            r == self@.valid_at(now),
    {
        self.consumed_at.is_none() && now.unix_nanos < self.expires_at.unix_nanos
    }

    /// Full check of this lease against the grant that issued it. Any change
    /// of the grant that withdraws its authority (revocation, suspension,
    /// expiry, consumption) invalidates every lease cut from it.
    pub fn validate_against(&self, grant: &AccessGrant, now: Timestamp) -> (r: Result<
        (),
        AuthorizationError,
    >)
        ensures
            match r {
                Ok(_) => lease_invalidity(self@, grant@, now) is None,
                Err(e) => lease_invalidity(self@, grant@, now) == Some(e),
            },
    {
        if self.grant_id != grant.grant_id {
            return Err(AuthorizationError::ForeignGrant);
        }
        if !grant.is_usable_at(now) {
            return Err(AuthorizationError::from_grant_state(grant, now));
        }
        if self.device_id != grant.device_id {
            return Err(AuthorizationError::DeviceBindingMismatch);
        }
        if !self.principal.same_as(&grant.principal) {
            return Err(AuthorizationError::PrincipalMismatch);
        }
        if self.expires_at.unix_nanos > grant.expires_at.unix_nanos {
            return Err(AuthorizationError::LeaseOutlivesGrant);
        }
        match self.workspace_ids.first_missing_from(&grant.workspace_ids) {
            Some(workspace_id) => {
                proof {
                    lemma_least_missing_workspace_unique(
                        self.workspace_ids@,
                        grant.workspace_ids@,
                        workspace_id,
                    );
                }
                return Err(AuthorizationError::WorkspaceNotGranted { workspace_id });
            },
            None => {},
        }
        match self.capabilities.first_missing_from(&grant.effective_capabilities) {
            Some(capability) => {
                proof {
                    lemma_least_missing_capability_unique(
                        self.capabilities,
                        grant.effective_capabilities,
                        capability,
                    );
                }
                return Err(AuthorizationError::CapabilityNotGranted { capability });
            },
            None => {},
        }
        if self.consumed_at.is_some() {
            return Err(AuthorizationError::LeaseAlreadyConsumed { lease_id: self.lease_id });
        }
        if !self.is_valid_at(now) {
            return Err(AuthorizationError::LeaseExpired { lease_id: self.lease_id });
        }
        Ok(())
    }

    /// A copy of this lease marked as spent by `operation_id` at `now`. The
    /// grant is not touched.
    pub fn consumed_by(&self, operation_id: OperationId, now: Timestamp) -> (r: Result<
        AuthorizationLease,
        AuthorizationError,
    >)
        ensures
            match r {
                Ok(spent) => {
                    &&& consume_refusal(self@, now) is None
                    &&& spent@ == (LeaseView {
                        consumed_at: Some(now),
                        consumed_by_operation: Some(operation_id),
                        ..self@
                    })
                },
                Err(e) => consume_refusal(self@, now) == Some(e),
            },
    {
        if self.consumed_at.is_some() {
            return Err(AuthorizationError::LeaseAlreadyConsumed { lease_id: self.lease_id });
        }
        if !self.is_valid_at(now) {
            return Err(AuthorizationError::LeaseExpired { lease_id: self.lease_id });
        }
        Ok(
            AuthorizationLease {
                lease_id: self.lease_id,
                grant_id: self.grant_id,
                subject_session_id: self.subject_session_id,
                device_id: self.device_id,
                principal: self.principal.duplicate(),
                workspace_ids: self.workspace_ids.duplicate(),
                capabilities: self.capabilities,
                task_scope: self.task_scope.clone(),
                issued_at: self.issued_at,
                expires_at: self.expires_at,
                consumed_at: Some(now),
                consumed_by_operation: Some(operation_id),
            },
        )
    }
}

/// Lease issuance and validation failures. Every one is a denial: there is
/// no "downgrade and continue" path.
#[derive(Debug, Clone, Copy, PartialEq, Eq, Structural)]
pub enum AuthorizationError {
    GrantNotApproved { status: AuthorizationStatus },
    GrantRevoked,
    GrantExpired { expires_at: Timestamp },
    GrantConsumed,
    ForeignGrant,
    DeviceBindingMismatch,
    PrincipalMismatch,
    WorkspaceNotGranted { workspace_id: WorkspaceId },
    CapabilityNotGranted { capability: Capability },
    LeaseOutlivesGrant,
    OneShotLeaseAlreadyIssued { lease_id: LeaseId },
    LeaseAlreadyConsumed { lease_id: LeaseId },
    LeaseExpired { lease_id: LeaseId },
    NonPositiveLifetime,
    EmptyScope,
}

impl AuthorizationError {
    /// The refusal that explains why `grant` is not usable at `now`.
    fn from_grant_state(grant: &AccessGrant, now: Timestamp) -> (e: AuthorizationError)
        ensures
            e == grant@.state_error(now),
    {
        let status = grant.status;
        match status {
            AuthorizationStatus::Revoked => {
                return AuthorizationError::GrantRevoked;
            },
            AuthorizationStatus::Consumed => {
                return AuthorizationError::GrantConsumed;
            },
            AuthorizationStatus::Expired => {
                return AuthorizationError::GrantExpired { expires_at: grant.expires_at };
            },
            _ => {},
        }
        if grant.is_expired_at(now) {
            return AuthorizationError::GrantExpired { expires_at: grant.expires_at };
        }
        AuthorizationError::GrantNotApproved { status }
    }
}

/// Refusals to read a transport-era session row as authority.
#[derive(Debug, Clone, Copy, PartialEq, Eq, Structural)]
pub enum LegacySessionMappingError {
    ActiveWithoutApproval { session_id: SessionId },
    NoWorkspace { session_id: SessionId },
    NonPositiveLifetime { session_id: SessionId },
}

/// The authorization status a legacy session status maps to; `None` for
/// pairing and connectivity statuses, which never carried authority.
pub open spec fn legacy_status(status: SessionStatus) -> Option<AuthorizationStatus> {
    match status {
        SessionStatus::Unpaired | SessionStatus::Paired | SessionStatus::Connected
        | SessionStatus::Disconnected => None,
        SessionStatus::PendingApproval => Some(AuthorizationStatus::PendingApproval),
        SessionStatus::Active => Some(AuthorizationStatus::Active),
        SessionStatus::Suspended => Some(AuthorizationStatus::Suspended),
        SessionStatus::Expired => Some(AuthorizationStatus::Expired),
        SessionStatus::Revoked => Some(AuthorizationStatus::Revoked),
    }
}

/// The note recorded on a migrated revocation.
pub open spec fn revoked_migration_note() -> Seq<char> {
    "migrated from a transport-era session row that recorded no revocation timestamp; the revocation itself is preserved"@
}

/// The note recorded on every other migrated grant.
pub open spec fn migration_note_for(session: SessionView) -> Seq<char> {
    "migrated from transport-era session "@ + crate::ids::id_text(
        "sess"@,
        session.session_id.value(),
    ) + " ("@ + status_name(session.status) + ")"@
}

/// The refusal for an inconsistent legacy row, or `None` when it is sound.
pub open spec fn legacy_refusal(session: SessionView) -> Option<LegacySessionMappingError> {
    if session.workspace_ids == Set::<WorkspaceId>::empty() {
        Some(LegacySessionMappingError::NoWorkspace { session_id: session.session_id })
    } else if session.expires_at.unix_nanos <= session.issued_at.unix_nanos {
        Some(LegacySessionMappingError::NonPositiveLifetime { session_id: session.session_id })
    } else if session.status == SessionStatus::Active && session.approved_at is None {
        Some(LegacySessionMappingError::ActiveWithoutApproval { session_id: session.session_id })
    } else {
        None
    }
}

/// The grant a sound legacy row with authority maps to.
pub open spec fn legacy_grant(session: SessionView, status: AuthorizationStatus) -> GrantView {
    GrantView {
        grant_id: GrantId::spec_from_value(session.session_id.value()),
        subject_session_id: session.session_id,
        device_id: session.device_id,
        principal: PrincipalView {
            name: session.remote_principal,
            assurance: PrincipalAssurance::Unverified,
        },
        workspace_ids: session.workspace_ids,
        capability_profile: session.capability_profile,
        effective_capabilities: session.effective_capabilities,
        task_scope: session.task_scope,
        kind: GrantKind::Standing,
        issued_at: session.issued_at,
        approved_at: session.approved_at,
        expires_at: session.expires_at,
        revoked_at: None,
        revocation_reason: if status == AuthorizationStatus::Revoked {
            Some("revoked before the authorization migration"@)
        } else {
            None
        },
        consumed_at: None,
        issued_lease_id: None,
        risk_policy_version: session.risk_policy_version,
        approval_policy: session.approval_policy,
        status,
        migrated_from_session_id: Some(session.session_id),
        migration_note: if status == AuthorizationStatus::Revoked {
            Some(revoked_migration_note())
        } else {
            Some(migration_note_for(session))
        },
    }
}

/// Maps a persisted transport-era session onto explicit authority.
///
/// * `Ok(None)`: a pairing or connectivity row that never carried
///   authority; nothing is minted.
/// * `Ok(Some(grant))`: a row that carried authority, mapped
///   deterministically with its own state, including `Revoked` and
///   `Expired`.
/// * `Err(_)`: an inconsistent row (no workspace, non-positive lifetime,
///   active without approval) is refused.
pub fn grant_from_legacy_session(session: &Session) -> (r: Result<
    Option<AccessGrant>,
    LegacySessionMappingError,
>)
    ensures
        legacy_status(session.status) is None ==> r == Ok::<
            Option<AccessGrant>,
            LegacySessionMappingError,
        >(None),
        legacy_status(session.status) is Some ==> match r {
            Ok(Some(grant)) => legacy_refusal(session@) is None && grant@ == legacy_grant(
                session@,
                legacy_status(session.status)->0,
            ),
            Ok(None) => false,
            Err(e) => legacy_refusal(session@) == Some(e),
        },
{
    let status = match session.status {
        SessionStatus::Unpaired | SessionStatus::Paired | SessionStatus::Connected
        | SessionStatus::Disconnected => {
            return Ok(None);
        },
        SessionStatus::PendingApproval => AuthorizationStatus::PendingApproval,
        SessionStatus::Active => AuthorizationStatus::Active,
        SessionStatus::Suspended => AuthorizationStatus::Suspended,
        SessionStatus::Expired => AuthorizationStatus::Expired,
        SessionStatus::Revoked => AuthorizationStatus::Revoked,
    };
    if session.workspace_ids.is_empty() {
        return Err(LegacySessionMappingError::NoWorkspace { session_id: session.session_id });
    }
    if session.expires_at.unix_nanos <= session.issued_at.unix_nanos {
        return Err(
            LegacySessionMappingError::NonPositiveLifetime { session_id: session.session_id },
        );
    }
    if status == AuthorizationStatus::Active && session.approved_at.is_none() {
        return Err(
            LegacySessionMappingError::ActiveWithoutApproval { session_id: session.session_id },
        );
    }
    let migration_note = match status {
        AuthorizationStatus::Revoked => String::from_str(
            "migrated from a transport-era session row that recorded no revocation timestamp; the revocation itself is preserved",
        ),
        _ => {
            let note = String::from_str("migrated from transport-era session ");
            let id_text = session.session_id.to_string();
            let note = note.concat(id_text.as_str());
            let note = note.concat(" (");
            let note = note.concat(session.status.name());
            note.concat(")")
        },
    };
    let revocation_reason = match status {
        AuthorizationStatus::Revoked => Some(
            String::from_str("revoked before the authorization migration"),
        ),
        _ => None,
    };
    Ok(
        Some(
            AccessGrant {
                grant_id: GrantId::from_ulid(session.session_id.as_ulid()),
                subject_session_id: session.session_id,
                device_id: session.device_id,
                principal: AuthorizationPrincipal::unverified(session.remote_principal.as_str()),
                workspace_ids: session.workspace_ids.duplicate(),
                capability_profile: session.capability_profile,
                effective_capabilities: session.effective_capabilities,
                task_scope: session.task_scope.clone(),
                kind: GrantKind::Standing,
                issued_at: session.issued_at,
                approved_at: session.approved_at,
                expires_at: session.expires_at,
                revoked_at: None,
                revocation_reason,
                consumed_at: None,
                issued_lease_id: None,
                risk_policy_version: session.risk_policy_version,
                approval_policy: session.approval_policy,
                status,
                migrated_from_session_id: Some(session.session_id),
                migration_note: Some(migration_note),
            },
        ),
    )
}

/// A lease is never wider or longer than the grant it was issued from: it
/// names the same grant, device and principal, covers a subset of the
/// grant's workspaces and capabilities, ends no later than the grant, and
/// passes the full check against that grant at the moment it is issued.
pub proof fn lemma_issued_lease_is_within_its_grant(
    lease: LeaseView,
    grant: GrantView,
    workspaces: Set<WorkspaceId>,
    capabilities: CapabilitySet,
    lifetime: Duration,
    now: Timestamp,
)
    requires
        lease_refusal(grant, workspaces, capabilities, lifetime, now) is None,
        is_issued_lease(lease, grant, workspaces, capabilities, lifetime, now),
    ensures
        lease.grant_id == grant.grant_id,
        lease.device_id == grant.device_id,
        lease.principal == grant.principal,
        lease.workspace_ids.subset_of(grant.workspace_ids),
        capabilities_within(lease.capabilities, grant.effective_capabilities),
        lease.expires_at.unix_nanos <= grant.expires_at.unix_nanos,
        lease.valid_at(now),
        lease_invalidity(lease, grant, now) is None,
{
}

/// Withdrawing a grant's authority (revocation, suspension, consumption,
/// expiry, or a grant never approved) invalidates every lease cut from it,
/// with the grant's own refusal.
pub proof fn lemma_unusable_grant_invalidates_its_leases(
    lease: LeaseView,
    grant: GrantView,
    now: Timestamp,
)
    requires
        lease.grant_id == grant.grant_id,
        !grant.usable_at(now),
    ensures
        lease_invalidity(lease, grant, now) == Some(grant.state_error(now)),
        lease_invalidity(lease, grant, now) is Some,
{
}

/// A lease cut from a usable grant is live against that grant when issued;
/// once the grant is revoked it is refused as revoked, and from the grant's
/// expiry on it is refused, whatever instant it is presented at.
pub proof fn lemma_revoking_or_expiring_the_grant_invalidates_a_live_lease(
    lease: LeaseView,
    grant: GrantView,
    revoked: GrantView,
    workspaces: Set<WorkspaceId>,
    capabilities: CapabilitySet,
    lifetime: Duration,
    now: Timestamp,
    later: Timestamp,
)
    requires
        lease_refusal(grant, workspaces, capabilities, lifetime, now) is None,
        is_issued_lease(lease, grant, workspaces, capabilities, lifetime, now),
        revoked.grant_id == grant.grant_id,
        revoked.status == AuthorizationStatus::Revoked,
    ensures
        lease_invalidity(lease, grant, now) is None,
        lease_invalidity(lease, revoked, later) == Some(AuthorizationError::GrantRevoked),
        later.unix_nanos >= grant.expires_at.unix_nanos ==> lease_invalidity(lease, grant, later)
            is Some,
{
    lemma_issued_lease_is_within_its_grant(lease, grant, workspaces, capabilities, lifetime, now);
}

/// A lease cut from a usable grant may be spent when issued; the spent copy
/// names the operation that spent it, is no longer valid at any instant,
/// cannot be spent again, and is refused against its grant as already spent.
pub proof fn lemma_a_consumed_lease_cannot_be_spent_twice(
    lease: LeaseView,
    grant: GrantView,
    workspaces: Set<WorkspaceId>,
    capabilities: CapabilitySet,
    lifetime: Duration,
    now: Timestamp,
    operation_id: OperationId,
    later: Timestamp,
)
    requires
        lease_refusal(grant, workspaces, capabilities, lifetime, now) is None,
        is_issued_lease(lease, grant, workspaces, capabilities, lifetime, now),
    ensures
        consume_refusal(lease, now) is None,
        lease_invalidity(lease, grant, now) is None,
        ({
            let spent = LeaseView {
                consumed_at: Some(now),
                consumed_by_operation: Some(operation_id),
                ..lease
            };
            &&& spent.consumed_by_operation == Some(operation_id)
            &&& !spent.valid_at(later)
            &&& consume_refusal(spent, later) == Some(
                AuthorizationError::LeaseAlreadyConsumed { lease_id: lease.lease_id },
            )
            &&& lease_invalidity(spent, grant, now) == Some(
                AuthorizationError::LeaseAlreadyConsumed { lease_id: lease.lease_id },
            )
            &&& lease_invalidity(spent, grant, later) is Some
        }),
{
    lemma_issued_lease_is_within_its_grant(lease, grant, workspaces, capabilities, lifetime, now);
}

/// A revoked grant is refused as revoked, whatever lease is presented.
pub proof fn lemma_revocation_is_reported_as_such(lease: LeaseView, grant: GrantView, now: Timestamp)
    requires
        lease.grant_id == grant.grant_id,
        grant.status == AuthorizationStatus::Revoked,
    ensures
        lease_invalidity(lease, grant, now) == Some(AuthorizationError::GrantRevoked),
{
}

/// A lease that has been spent can be spent neither again nor used: both
/// marking it spent and validating it fail.
pub proof fn lemma_spent_lease_is_never_spendable(
    lease: LeaseView,
    grant: GrantView,
    operation_id: OperationId,
    then: Timestamp,
    now: Timestamp,
)
    requires
        consume_refusal(lease, then) is None,
    ensures
        consume_refusal(
            LeaseView {
                consumed_at: Some(then),
                consumed_by_operation: Some(operation_id),
                ..lease
            },
            now,
        ) == Some(AuthorizationError::LeaseAlreadyConsumed { lease_id: lease.lease_id }),
        lease_invalidity(
            LeaseView {
                consumed_at: Some(then),
                consumed_by_operation: Some(operation_id),
                ..lease
            },
            grant,
            now,
        ) is Some,
{
}

/// A grant in a terminal status, or still awaiting approval, carries no
/// authority at any instant.
pub proof fn lemma_terminal_or_pending_grant_has_no_authority(grant: GrantView, now: Timestamp)
    requires
        status_is_terminal(grant.status) || grant.status == AuthorizationStatus::PendingApproval,
    ensures
        !grant.usable_at(now),
{
}

/// Once a one-shot grant has cut its lease, no further lease can be issued
/// against it.
pub proof fn lemma_one_shot_grant_issues_one_lease(
    grant: GrantView,
    workspaces: Set<WorkspaceId>,
    capabilities: CapabilitySet,
    lifetime: Duration,
    now: Timestamp,
)
    requires
        grant.kind == GrantKind::OneShot,
        grant.issued_lease_id is Some,
    ensures
        lease_refusal(grant, workspaces, capabilities, lifetime, now) is Some,
{
}

/// Pairing and connectivity rows never map to a grant, and a mapped row
/// is fully determined by the row itself: mapping it again gives the same
/// grant, and a revoked row stays revoked.
pub proof fn lemma_legacy_mapping_preserves_state(session: SessionView)
    ensures
        session.status == SessionStatus::Unpaired || session.status == SessionStatus::Paired
            || session.status == SessionStatus::Connected || session.status
            == SessionStatus::Disconnected <==> legacy_status(session.status) is None,
        session.status == SessionStatus::Revoked ==> legacy_grant(
            session,
            legacy_status(session.status)->0,
        ).status == AuthorizationStatus::Revoked,
        session.status == SessionStatus::Revoked ==> legacy_grant(
            session,
            legacy_status(session.status)->0,
        ).revoked_at is None,
        session.status == SessionStatus::Active && legacy_refusal(session) is None ==> legacy_grant(
            session,
            legacy_status(session.status)->0,
        ).usable_at(session.issued_at),
{
}

/// Every grant mapped from a sound legacy row is a standing grant that has
/// cut no lease yet, so it may issue leases without limit: a transport-era
/// row never carried one-shot authority. It is the row's own authority:
/// the same subject, device, unverified principal, workspaces, profile,
/// capabilities, scope and lifetime, with the status the row's status maps
/// to, nothing consumed, and an id taken from the row's id, so that two
/// rows map to the same grant id exactly when they are the same row.
pub proof fn lemma_legacy_grant_is_standing_authority_of_its_row(
    session: SessionView,
    other: SessionView,
    status: AuthorizationStatus,
)
    ensures
        legacy_grant(session, status).kind == GrantKind::Standing,
        legacy_grant(session, status).issued_lease_id is None,
        legacy_grant(session, status).may_issue_another_lease(),
        legacy_grant(session, status).consumed_at is None,
        legacy_grant(session, status).status == status,
        legacy_grant(session, status).subject_session_id == session.session_id,
        legacy_grant(session, status).device_id == session.device_id,
        legacy_grant(session, status).principal.name == session.remote_principal,
        legacy_grant(session, status).principal.assurance == PrincipalAssurance::Unverified,
        legacy_grant(session, status).workspace_ids == session.workspace_ids,
        legacy_grant(session, status).capability_profile == session.capability_profile,
        legacy_grant(session, status).effective_capabilities == session.effective_capabilities,
        legacy_grant(session, status).task_scope == session.task_scope,
        legacy_grant(session, status).issued_at == session.issued_at,
        legacy_grant(session, status).approved_at == session.approved_at,
        legacy_grant(session, status).expires_at == session.expires_at,
        legacy_grant(session, status).migrated_from_session_id == Some(session.session_id),
        legacy_grant(session, status).grant_id.value() == session.session_id.value(),
        (legacy_grant(session, status).grant_id == legacy_grant(other, status).grant_id)
            <==> session.session_id == other.session_id,
        legacy_grant(session, status).revoked_at is None,
        legacy_grant(session, status).revocation_reason is Some <==> status
            == AuthorizationStatus::Revoked,
        legacy_grant(session, status).migration_note is Some,
        legacy_refusal(session) is None <==> (session.workspace_ids != Set::<WorkspaceId>::empty()
            && session.issued_at.unix_nanos < session.expires_at.unix_nanos && (session.status
            == SessionStatus::Active ==> session.approved_at is Some)),
{
    GrantId::lemma_from_value(session.session_id.value());
    GrantId::lemma_from_value(other.session_id.value());
    GrantId::lemma_value_determines(
        legacy_grant(session, status).grant_id,
        legacy_grant(other, status).grant_id,
    );
    SessionId::lemma_value_determines(session.session_id, other.session_id);
}

/// A legacy row keeps its own state: rows with distinct statuses map to
/// distinct authorization statuses, only an `Active` row maps to the one
/// status that carries authority, only a `Revoked` row maps to `Revoked`,
/// and a mapped status is terminal exactly when the row had expired or
/// been revoked.
pub proof fn lemma_legacy_status_keeps_the_row_state(a: SessionStatus, b: SessionStatus)
    ensures
        legacy_status(a) is Some && legacy_status(a) == legacy_status(b) ==> a == b,
        legacy_status(a) == Some(AuthorizationStatus::Active) <==> a == SessionStatus::Active,
        legacy_status(a) == Some(AuthorizationStatus::Revoked) <==> a == SessionStatus::Revoked,
        legacy_status(a) is Some ==> (status_is_terminal(legacy_status(a)->0) <==> (a
            == SessionStatus::Expired || a == SessionStatus::Revoked)),
        legacy_status(a) != Some(AuthorizationStatus::Consumed),
{
}

} // verus!
