//! The decisions of the local daemon on remote input.
//!
//! Everything that arrives over the relay transport goes through the same
//! pipeline as local callers, and nothing arriving there can mint, widen or
//! revive authority. The functions here decide; the daemon's runtime loads
//! records, asks the policy engine, writes the audit trail and talks to the
//! transport, and hands each outcome back to them.
//!
//! The fail-closed rules live here:
//! * no operation executes or waits for approval without a durable
//!   pre-execution audit record, and the refusal sent back names only a
//!   stable error class;
//! * an approval executes only once its decision is durably recorded and
//!   only while the policy still asks for exactly that approval; a decision
//!   that could not be recorded puts the operation back in the queue;
//! * a denial is never undone, even when it could not be recorded.

use vstd::prelude::*;

use crate::audit::{AuditError, AuditEvent, ExecutionStatus, PolicyResultKind};
use crate::authorization::{
    grant_from_legacy_session, legacy_grant, legacy_refusal, legacy_status, AccessGrant,
    AuthorizationPrincipal, AuthorizationStatus, GrantKind, GrantRequest, GrantView, PrincipalAssurance, PrincipalView,
};
use crate::bridge::CoreBridgeError;
use crate::capability::{Capability, CapabilityProfile};
use crate::error::CompanionError;
use crate::identity::IdentityError;
use crate::ids::{DeviceId, SessionId, WorkspaceId};
use crate::operation::OperationRequest;
use crate::pending::PendingOperation;
use crate::risk::RiskLevel;
use crate::session::Session;
use crate::time_model::{representable, Duration, Timestamp};
use crate::workspace_set::WorkspaceIdSet;

verus! {

/// Why the policy refused an operation.
#[derive(Debug, Clone, PartialEq, Eq)]
pub enum DenyReason {
    /// No access grant backs the request's subject.
    AuthorizationNotEstablished,
    /// The request names a workspace that is not authorized locally.
    WorkspaceNotAuthorized,
    /// The policy engine's own reason, as it names it.
    Policy(String),
}

/// What the policy decided for one operation request.
#[derive(Debug, Clone, PartialEq, Eq)]
pub enum PolicyDecision {
    Allow { capability: Capability, risk: RiskLevel },
    Deny { reason: DenyReason },
    RequireApproval { capability: Capability, risk: RiskLevel },
}

/// Daemon failures reported to local callers.
#[derive(Debug, Clone, PartialEq, Eq)]
pub enum DaemonError {
    Identity(IdentityError),
    /// Secure device identity storage is not available on this platform.
    SecretStoreUnavailable,
    SessionNotFound,
    /// A decision could not be recorded durably; `code` is the audit
    /// store's error code.
    AuditPersistence { code: &'static str },
    Internal(String),
}

impl CompanionError for DaemonError {
    open spec fn spec_code(&self) -> Seq<char> {
        match self {
            DaemonError::Identity(e) => e.spec_code(),
            DaemonError::SecretStoreUnavailable => "IDENTITY_SECRET_STORE_UNAVAILABLE"@,
            DaemonError::SessionNotFound => "SESSION_NOT_FOUND"@,
            DaemonError::AuditPersistence { code } => code@,
            DaemonError::Internal(_) => "IPC_INTERNAL"@,
        }
    }

    open spec fn spec_retryable(&self) -> bool {
        match self {
            DaemonError::Identity(e) => e.spec_retryable(),
            _ => false,
        }
    }

    fn code(&self) -> (code: &'static str) {
        match self {
            DaemonError::Identity(e) => e.code(),
            DaemonError::SecretStoreUnavailable => "IDENTITY_SECRET_STORE_UNAVAILABLE",
            DaemonError::SessionNotFound => "SESSION_NOT_FOUND",
            DaemonError::AuditPersistence { code } => code,
            DaemonError::Internal(_) => "IPC_INTERNAL",
        }
    }

    fn retryable(&self) -> (r: bool) {
        match self {
            DaemonError::Identity(e) => e.retryable(),
            _ => false,
        }
    }
}

/// The fixed message of a refusal for want of an audit record. Nothing of
/// the storage error or of the request is ever echoed across the transport.
pub const AUDIT_FAIL_CLOSED_MESSAGE: &'static str =
    "durable audit record could not be persisted; operation was not executed";

/// The error class recorded when an approved operation is refused because
/// its authorization changed before the approval.
pub const POLICY_REVALIDATION_DENIED: &'static str = "POLICY_REVALIDATION_DENIED";

/// The error class recorded for an operation a local user denied.
pub const DENIED_BY_USER: &'static str = "DENIED_BY_USER";

/// The error class recorded for a waiting operation of a revoked session.
pub const SESSION_REVOKED: &'static str = "SESSION_REVOKED";

/// The access request a remote session request records: a standing grant
/// request for exactly the one named workspace, issued to the unverified
/// transport-supplied principal, with the lifetime the local TTL policy
/// allowed. Recording it mints no authority (see
/// [`AccessGrant::requested`]).
pub fn session_access_request(
    subject_session_id: SessionId,
    device_id: DeviceId,
    remote_principal: &str,
    workspace_id: WorkspaceId,
    capability_profile: CapabilityProfile,
    task_scope: &str,
    lifetime: Duration,
) -> (r: GrantRequest)
    ensures
        r.subject_session_id == subject_session_id,
        r.device_id == device_id,
        r.principal@ == (PrincipalView {
            name: remote_principal@,
            assurance: PrincipalAssurance::Unverified,
        }),
        r.workspace_ids@ == Set::<WorkspaceId>::empty().insert(workspace_id),
        r.capability_profile == capability_profile,
        r.task_scope@ == task_scope@,
        r.kind == GrantKind::Standing,
        r.lifetime == lifetime,
{
    let mut workspace_ids = WorkspaceIdSet::new();
    workspace_ids.insert(workspace_id);
    GrantRequest {
        subject_session_id,
        device_id,
        principal: AuthorizationPrincipal::unverified(remote_principal),
        workspace_ids,
        capability_profile,
        task_scope: String::from_str(task_scope),
        kind: GrantKind::Standing,
        lifetime,
    }
}

/// The pending grant a remote session request records, with the lifetime
/// of `effective_ttl_minutes` that the local TTL policy allowed, issued at
/// `now`. `None` where that lifetime does not fit a span of `i64` seconds or
/// the expiry it gives is not a representable instant; no grant is recorded
/// then.
#[allow(clippy::too_many_arguments)]
pub fn session_grant(
    subject_session_id: SessionId,
    device_id: DeviceId,
    remote_principal: &str,
    workspace_id: WorkspaceId,
    capability_profile: CapabilityProfile,
    task_scope: &str,
    effective_ttl_minutes: i64,
    now: Timestamp,
) -> (r: Option<AccessGrant>)
    ensures
        r is Some <==> (i64::MIN <= effective_ttl_minutes * 60 <= i64::MAX && representable(
            now.unix_nanos + effective_ttl_minutes * 60_000_000_000,
        )),
        r matches Some(g) ==> {
            &&& g@.subject_session_id == subject_session_id
            &&& g@.device_id == device_id
            &&& g@.principal == (PrincipalView {
                name: remote_principal@,
                assurance: PrincipalAssurance::Unverified,
            })
            &&& g@.workspace_ids == Set::<WorkspaceId>::empty().insert(workspace_id)
            &&& g@.capability_profile == capability_profile
            &&& g@.task_scope == task_scope@
            &&& g@.kind == GrantKind::Standing
            &&& g@.issued_at == now
            &&& g@.expires_at.unix_nanos == now.unix_nanos + effective_ttl_minutes * 60_000_000_000
            &&& g@.status == AuthorizationStatus::PendingApproval
            &&& g@.approved_at is None
            &&& g@.issued_lease_id is None
        },
{
    if effective_ttl_minutes < i64::MIN / 60 || effective_ttl_minutes > i64::MAX / 60 {
        return None;
    }
    let lifetime = Duration::minutes(effective_ttl_minutes);
    let sum: i128 = match now.unix_nanos.checked_add(lifetime.nanos) {
        Some(v) => v,
        None => {
            return None;
        },
    };
    match Timestamp::from_unix_nanos(sum) {
        None => None,
        Some(_) => {
            let request = session_access_request(
                subject_session_id,
                device_id,
                remote_principal,
                workspace_id,
                capability_profile,
                task_scope,
                lifetime,
            );
            Some(AccessGrant::requested(request, now))
        },
    }
}

/// The device id a request may act for: the claimed id, and only when it is
/// this device's persistent identity (`local`, absent when no identity is
/// stored or it could not be loaded).
pub fn bound_local_device_id(claimed: Option<DeviceId>, local: Option<DeviceId>) -> (r: Option<
    DeviceId,
>)
    ensures
        r is Some <==> (claimed is Some && local == claimed),
        r is Some ==> r == claimed,
{
    match (claimed, local) {
        (Some(c), Some(l)) => if c == l {
            Some(l)
        } else {
            None
        },
        _ => None,
    }
}

/// The device an operation's authority is bound to: the grant's, else the
/// transport-era session row's.
pub open spec fn authority_device(grant: Option<AccessGrant>, session: Option<Session>) -> Option<
    DeviceId,
> {
    match grant {
        Some(g) => Some(g.device_id),
        None => match session {
            Some(s) => Some(s.device_id),
            None => None,
        },
    }
}

/// Whether the authority behind an operation belongs to this device.
pub fn operation_device_bound(
    grant: &Option<AccessGrant>,
    session: &Option<Session>,
    local: DeviceId,
) -> (bound: bool)
    ensures
        bound == (authority_device(*grant, *session) == Some(local)),
{
    match grant {
        Some(g) => g.device_id == local,
        None => match session {
            Some(s) => s.device_id == local,
            None => false,
        },
    }
}

/// The grant derived from a transport-era session row by the legacy
/// adapter, where the row carried authority and is consistent.
pub open spec fn legacy_authority(session: Session) -> Option<GrantView> {
    match legacy_status(session.status) {
        None => None,
        Some(status) => if legacy_refusal(session@) is None {
            Some(legacy_grant(session@, status))
        } else {
            None
        },
    }
}

/// The authority behind a subject: its persisted grant, else the grant the
/// legacy adapter derives from its session row. `None` means no authority
/// exists, which is a refusal.
pub fn resolve_authority(persisted: Option<AccessGrant>, session: &Option<Session>) -> (r: Option<
    AccessGrant,
>)
    ensures
        persisted is Some ==> r == persisted,
        persisted is None ==> match *session {
            None => r is None,
            Some(s) => match legacy_authority(s) {
                None => r is None,
                Some(g) => r is Some && r->Some_0@ == g,
            },
        },
{
    match persisted {
        Some(g) => Some(g),
        None => match session {
            None => None,
            Some(s) => match grant_from_legacy_session(s) {
                Ok(Some(g)) => Some(g),
                Ok(None) => None,
                Err(_) => None,
            },
        },
    }
}

/// The refusal owed where the policy cannot be asked: without a grant, or
/// without an authorized workspace, nothing falls back to "the transport is
/// connected, so allow". `None` where both exist.
pub fn missing_authority_denial(has_grant: bool, has_workspace: bool) -> (r: Option<DenyReason>)
    ensures
        r is None <==> (has_grant && has_workspace),
        !has_workspace ==> r == Some(DenyReason::WorkspaceNotAuthorized),
        has_workspace && !has_grant ==> r == Some(DenyReason::AuthorizationNotEstablished),
{
    if has_grant && has_workspace {
        None
    } else if has_workspace {
        Some(DenyReason::AuthorizationNotEstablished)
    } else {
        Some(DenyReason::WorkspaceNotAuthorized)
    }
}

/// The audit result kind of a decision.
pub open spec fn policy_result_of(decision: PolicyDecision) -> PolicyResultKind {
    match decision {
        PolicyDecision::Allow { .. } => PolicyResultKind::Allow,
        PolicyDecision::Deny { .. } => PolicyResultKind::Deny,
        PolicyDecision::RequireApproval { .. } => PolicyResultKind::RequireApproval,
    }
}

/// The capability a decision names; a denial names none.
pub open spec fn decision_capability(decision: PolicyDecision) -> Option<Capability> {
    match decision {
        PolicyDecision::Allow { capability, .. } => Some(capability),
        PolicyDecision::Deny { .. } => None,
        PolicyDecision::RequireApproval { capability, .. } => Some(capability),
    }
}

/// The risk a decision names; a denial names none.
pub open spec fn decision_risk(decision: PolicyDecision) -> Option<RiskLevel> {
    match decision {
        PolicyDecision::Allow { risk, .. } => Some(risk),
        PolicyDecision::Deny { .. } => None,
        PolicyDecision::RequireApproval { risk, .. } => Some(risk),
    }
}

/// The principal an audit record names: the grant's, as the authority,
/// else the legacy row's.
pub open spec fn audited_principal(grant: Option<AccessGrant>, session: Option<Session>) -> Option<
    Seq<char>,
> {
    match grant {
        Some(g) => Some(g.principal.name@),
        None => match session {
            Some(s) => Some(s.remote_principal@),
            None => None,
        },
    }
}

/// Whether `event` is the pre-execution audit record of `decision`, taken
/// at `now` on `request` under `grant` (else the legacy `session` row).
pub open spec fn is_audit_event_for(
    event: AuditEvent,
    request: OperationRequest,
    grant: Option<AccessGrant>,
    session: Option<Session>,
    decision: PolicyDecision,
    now: Timestamp,
) -> bool {
    &&& event.operation_id == request.operation_id
    &&& event.timestamp == now
    &&& event.session_id == Some(request.session_id)
    &&& event.workspace_id == Some(request.workspace_id)
    &&& (match event.remote_principal {
        Some(p) => Some(p@),
        None => None,
    }) == audited_principal(grant, session)
    &&& event.requested_tool@ == request.tool_name@
    &&& event.capability == decision_capability(decision)
    &&& event.risk == decision_risk(decision)
    &&& event.policy_result == policy_result_of(decision)
    &&& event.approval_decision is None
    &&& event.execution_status == ExecutionStatus::NotExecuted
    &&& event.error_class is None
    &&& event.duration_ms is None
}

/// The pre-execution audit record of a decision taken at `now`. It holds
/// metadata only: never the tool arguments.
pub fn build_audit_event(
    request: &OperationRequest,
    grant: &Option<AccessGrant>,
    session: &Option<Session>,
    decision: &PolicyDecision,
    now: Timestamp,
) -> (event: AuditEvent)
    ensures
        is_audit_event_for(event, *request, *grant, *session, *decision, now),
{
    let (policy_result, capability, risk) = match decision {
        PolicyDecision::Allow { capability, risk } => (
            PolicyResultKind::Allow,
            Some(*capability),
            Some(*risk),
        ),
        PolicyDecision::Deny { .. } => (PolicyResultKind::Deny, None, None),
        PolicyDecision::RequireApproval { capability, risk } => (
            PolicyResultKind::RequireApproval,
            Some(*capability),
            Some(*risk),
        ),
    };
    let remote_principal = match grant {
        Some(g) => Some(g.principal.name.clone()),
        None => match session {
            Some(s) => Some(s.remote_principal.clone()),
            None => None,
        },
    };
    AuditEvent {
        operation_id: request.operation_id,
        timestamp: now,
        session_id: Some(request.session_id),
        workspace_id: Some(request.workspace_id),
        remote_principal,
        requested_tool: request.tool_name.clone(),
        capability,
        risk,
        policy_result,
        approval_decision: None,
        execution_status: ExecutionStatus::NotExecuted,
        error_class: None,
        duration_ms: None,
    }
}

/// What the daemon does with an operation once its decision was taken and
/// the pre-execution audit record was attempted.
#[derive(Debug, Clone, PartialEq, Eq)]
pub enum OperationDisposition {
    /// The audit record could not be written: refuse, run nothing, queue
    /// nothing.
    RefuseUnaudited,
    /// Call the tool and answer with its result.
    Execute,
    /// Answer with the refusal.
    RespondDenied { reason: DenyReason },
    /// Keep the operation until a local user decides.
    AwaitApproval { capability: Capability, risk: RiskLevel },
}

/// The disposition of an operation given the policy's decision and whether
/// its pre-execution audit record is durable.
pub open spec fn disposition_for(decision: PolicyDecision, audit_recorded: bool) -> OperationDisposition {
    if !audit_recorded {
        OperationDisposition::RefuseUnaudited
    } else {
        match decision {
            PolicyDecision::Allow { .. } => OperationDisposition::Execute,
            PolicyDecision::Deny { reason } => OperationDisposition::RespondDenied { reason },
            PolicyDecision::RequireApproval { capability, risk } => OperationDisposition::AwaitApproval {
                capability,
                risk,
            },
        }
    }
}

/// Decides what happens to an operation: fail closed without an audit
/// record, else follow the policy's decision.
pub fn operation_disposition(decision: PolicyDecision, audit_recorded: bool) -> (d: OperationDisposition)
    ensures
        d == disposition_for(decision, audit_recorded),
{
    if !audit_recorded {
        return OperationDisposition::RefuseUnaudited;
    }
    match decision {
        PolicyDecision::Allow { .. } => OperationDisposition::Execute,
        PolicyDecision::Deny { reason } => OperationDisposition::RespondDenied { reason },
        PolicyDecision::RequireApproval { capability, risk } => OperationDisposition::AwaitApproval {
            capability,
            risk,
        },
    }
}

/// No operation runs, and none waits for approval, without a durable
/// pre-execution audit record; a denial never runs.
pub proof fn lemma_nothing_runs_unaudited(decision: PolicyDecision, audit_recorded: bool)
    ensures
        disposition_for(decision, audit_recorded) == OperationDisposition::Execute ==> audit_recorded
            && decision is Allow,
        disposition_for(decision, audit_recorded) is AwaitApproval ==> audit_recorded
            && decision is RequireApproval,
        decision is Deny ==> disposition_for(decision, audit_recorded) != OperationDisposition::Execute,
{
}

/// The typed refusal sent back when the pre-execution audit record could
/// not be written: a stable error class, a fixed message, whether a retry
/// may help, and that nothing ran.
#[derive(Debug, Clone, PartialEq, Eq)]
pub struct AuditRefusal {
    pub error_class: &'static str,
    pub error: &'static str,
    pub retryable: bool,
    pub executed: bool,
}

/// The refusal for audit error `e`.
pub fn audit_refusal(e: &AuditError) -> (r: AuditRefusal)
    ensures
        r.error_class@ == e.spec_code(),
        r.error@ == AUDIT_FAIL_CLOSED_MESSAGE@,
        r.retryable == e.spec_retryable(),
        !r.executed,
{
    AuditRefusal {
        error_class: e.code(),
        error: AUDIT_FAIL_CLOSED_MESSAGE,
        retryable: e.retryable(),
        executed: false,
    }
}

/// The authority behind a subject, as resolved by [`resolve_authority`]:
/// its persisted grant, else the legacy adapter's grant for its row.
pub open spec fn resolved_authority(persisted: Option<AccessGrant>, session: Option<Session>) -> Option<
    GrantView,
> {
    match persisted {
        Some(g) => Some(g@),
        None => match session {
            None => None,
            Some(s) => legacy_authority(s),
        },
    }
}

/// The mathematical content of an optional grant.
pub open spec fn opt_grant_view(grant: Option<AccessGrant>) -> Option<GrantView> {
    match grant {
        Some(g) => Some(g@),
        None => None,
    }
}

/// The device the resolved authority is bound to: the grant's, else the
/// legacy row's.
pub open spec fn resolved_device(grant: Option<GrantView>, session: Option<Session>) -> Option<
    DeviceId,
> {
    match grant {
        Some(g) => Some(g.device_id),
        None => match session {
            Some(s) => Some(s.device_id),
            None => None,
        },
    }
}

/// Whether a remote operation request is dropped before anything is
/// recorded: its claimed device is not this device's identity, or the
/// authority behind its subject is bound to another device.
pub open spec fn operation_dropped(
    claimed: Option<DeviceId>,
    local: Option<DeviceId>,
    persisted: Option<AccessGrant>,
    session: Option<Session>,
) -> bool {
    !(claimed is Some && local == claimed) || resolved_device(
        resolved_authority(persisted, session),
        session,
    ) != claimed
}

/// The refusal owed where the policy cannot be asked.
pub open spec fn missing_authority_reason(has_workspace: bool) -> DenyReason {
    if has_workspace {
        DenyReason::AuthorizationNotEstablished
    } else {
        DenyReason::WorkspaceNotAuthorized
    }
}

/// How one remote operation request was handled, when it was not dropped.
pub struct OperationHandling {
    /// The authority the request was judged under.
    pub grant: Option<AccessGrant>,
    /// The decision taken: the refusal owed without authority, else the
    /// policy's.
    pub decision: Ghost<PolicyDecision>,
    /// The pre-execution audit record that was written, or attempted.
    pub event: AuditEvent,
    pub recorded: Result<(), AuditError>,
    /// What to do with the operation now.
    pub disposition: OperationDisposition,
    /// What to send back when the record could not be written.
    pub refusal: Option<AuditRefusal>,
}

/// Handles one remote operation request, in order: bind it to this device
/// (`local`, the stored identity), resolve the authority behind its
/// subject, refuse where there is no grant or no authorized workspace
/// (`has_workspace`) and otherwise ask the policy (`evaluate`), drop it
/// where the authority is bound to another device, write the pre-execution
/// audit record (`record`), and dispose of it: fail closed without a
/// durable record, else as the policy decided. `None` means the request was
/// dropped and nothing was asked or recorded.
#[allow(clippy::too_many_arguments)]
pub fn handle_operation_request<E, R>(
    claimed: Option<DeviceId>,
    local: Option<DeviceId>,
    persisted: Option<AccessGrant>,
    session: &Option<Session>,
    has_workspace: bool,
    request: &OperationRequest,
    now: Timestamp,
    evaluate: E,
    record: R,
) -> (r: Option<OperationHandling>) where
    E: FnOnce(&OperationRequest, &AccessGrant) -> PolicyDecision,
    R: FnOnce(&AuditEvent) -> Result<(), AuditError>,

    requires
        forall|g: AccessGrant| #[trigger] evaluate.requires((request, &g)),
        forall|e: AuditEvent| #[trigger] record.requires((&e,)),
    ensures
        r is None <==> operation_dropped(claimed, local, persisted, *session),
        r matches Some(h) ==> {
            &&& opt_grant_view(h.grant) == resolved_authority(persisted, *session)
            &&& (h.grant is None || !has_workspace) ==> h.decision@ == PolicyDecision::Deny {
                reason: missing_authority_reason(has_workspace),
            }
            &&& (h.grant is Some && has_workspace) ==> evaluate.ensures(
                (request, &h.grant->Some_0),
                h.decision@,
            )
            &&& is_audit_event_for(h.event, *request, h.grant, *session, h.decision@, now)
            &&& record.ensures((&h.event,), h.recorded)
            &&& h.disposition == disposition_for(h.decision@, h.recorded is Ok)
            &&& (h.refusal is Some <==> h.recorded is Err)
            &&& h.refusal matches Some(f) ==> {
                &&& f.error_class@ == h.recorded->Err_0.spec_code()
                &&& f.error@ == AUDIT_FAIL_CLOSED_MESSAGE@
                &&& f.retryable == h.recorded->Err_0.spec_retryable()
                &&& !f.executed
            }
        },
{
    let local_device_id = match bound_local_device_id(claimed, local) {
        Some(d) => d,
        None => {
            return None;
        },
    };
    let grant = resolve_authority(persisted, session);
    if !operation_device_bound(&grant, session, local_device_id) {
        return None;
    }
    let decision = match missing_authority_denial(grant.is_some(), has_workspace) {
        Some(reason) => PolicyDecision::Deny { reason },
        None => match &grant {
            Some(g) => evaluate(request, g),
            None => PolicyDecision::Deny {
                reason: DenyReason::AuthorizationNotEstablished,
            },
        },
    };
    let event = build_audit_event(request, &grant, session, &decision, now);
    let recorded = record(&event);
    let ghost taken = decision;
    let disposition = operation_disposition(decision, recorded.is_ok());
    let refusal = match &recorded {
        Ok(()) => None,
        Err(e) => Some(audit_refusal(e)),
    };
    Some(OperationHandling { grant, decision: Ghost(taken), event, recorded, disposition, refusal })
}

/// Whether an approved operation is still authorized: the policy must still
/// ask for approval of exactly the capability and risk it waited with.
pub open spec fn spec_still_authorized(current: PolicyDecision, pending: PendingOperation) -> bool {
    match current {
        PolicyDecision::RequireApproval { capability, risk } => capability == pending.capability
            && risk == pending.risk,
        _ => false,
    }
}

/// Re-checks an approved operation against the policy's current decision.
pub fn still_authorized(current: &PolicyDecision, pending: &PendingOperation) -> (r: bool)
    ensures
        r == spec_still_authorized(*current, *pending),
{
    match current {
        PolicyDecision::RequireApproval { capability, risk } => *capability == pending.capability
            && *risk == pending.risk,
        _ => false,
    }
}

/// What an approval ("allow once") leads to.
#[derive(Debug, Clone, PartialEq, Eq)]
pub enum ApprovalStep {
    /// The decision could not be recorded: nothing runs, the operation goes
    /// back into the queue, and the caller gets the audit store's code.
    Requeue { code: &'static str },
    /// The authorization changed meanwhile: nothing runs, the audit row is
    /// closed as failed and the remote caller is told.
    RefuseStale,
    /// The decision is durable and still valid: run the operation once.
    Execute,
}

/// The step an approval takes.
pub open spec fn approval_step_for(recorded: Result<(), AuditError>, still_authorized: bool) -> ApprovalStep {
    match recorded {
        Err(e) => ApprovalStep::Requeue { code: audit_code_literal(e) },
        Ok(()) => if still_authorized {
            ApprovalStep::Execute
        } else {
            ApprovalStep::RefuseStale
        },
    }
}

/// The audit store's code, as the literal its `code` returns.
pub open spec fn audit_code_literal(e: AuditError) -> &'static str {
    match e {
        AuditError::NotFound => "AUDIT_NOT_FOUND",
        AuditError::Storage(_) => "AUDIT_STORAGE",
    }
}

/// Decides an approval: the decision must be durable before anything
/// runs, and the operation must still be authorized as it was.
pub fn decide_approval(recorded: &Result<(), AuditError>, still_authorized: bool) -> (step: ApprovalStep)
    ensures
        step == approval_step_for(*recorded, still_authorized),
{
    match recorded {
        Err(e) => {
            let code = match e {
                AuditError::NotFound => "AUDIT_NOT_FOUND",
                AuditError::Storage(_) => "AUDIT_STORAGE",
            };
            ApprovalStep::Requeue { code }
        },
        Ok(()) => if still_authorized {
            ApprovalStep::Execute
        } else {
            ApprovalStep::RefuseStale
        },
    }
}

/// What the local caller of an approval is answered for each step.
pub fn approval_result(step: &ApprovalStep) -> (r: Result<(), DaemonError>)
    ensures
        r is Ok <==> *step == ApprovalStep::Execute,
        (match *step {
            ApprovalStep::Requeue { code } => r == Err::<(), DaemonError>(
                DaemonError::AuditPersistence { code },
            ),
            ApprovalStep::RefuseStale => r is Err && r->Err_0 is Internal && r->Err_0->Internal_0@
                == "pending operation is no longer authorized"@,
            ApprovalStep::Execute => true,
        }),
{
    match step {
        ApprovalStep::Requeue { code } => Err(DaemonError::AuditPersistence { code: *code }),
        ApprovalStep::RefuseStale => Err(
            DaemonError::Internal(String::from_str("pending operation is no longer authorized")),
        ),
        ApprovalStep::Execute => Ok(()),
    }
}

/// An approved operation runs only when the approval is durable and the
/// operation is still authorized; when the approval is not durable the
/// operation goes back to the queue, and only then.
pub proof fn lemma_approval_is_durable_before_execution(
    recorded: Result<(), AuditError>,
    still_authorized: bool,
)
    ensures
        approval_step_for(recorded, still_authorized) == ApprovalStep::Execute <==> (recorded is Ok
            && still_authorized),
        approval_step_for(recorded, still_authorized) is Requeue <==> recorded is Err,
{
}

/// What the local caller of a denial is answered. The denial itself is
/// enforced whatever happens: the operation has left the queue and is
/// never put back; a denial that could not be recorded is reported with the
/// audit store's code.
pub fn denial_result(recorded: &Result<(), AuditError>) -> (r: Result<(), DaemonError>)
    ensures
        r is Ok <==> recorded is Ok,
        recorded is Err ==> r == Err::<(), DaemonError>(
            DaemonError::AuditPersistence { code: audit_code_literal(recorded->Err_0) },
        ),
{
    match recorded {
        Ok(()) => Ok(()),
        Err(e) => {
            let code = match e {
                AuditError::NotFound => "AUDIT_NOT_FOUND",
                AuditError::Storage(_) => "AUDIT_STORAGE",
            };
            Err(DaemonError::AuditPersistence { code })
        },
    }
}

/// How a tool call ended, for the audit row and the answer.
#[derive(Debug, Clone, PartialEq, Eq)]
pub struct ExecutionOutcome {
    pub status: ExecutionStatus,
    pub error_class: Option<String>,
}

/// The audit outcome of a tool call: success, or failure with the bridge
/// error's code as its class.
pub fn execution_outcome(call: &Result<serde_json::Value, CoreBridgeError>) -> (o: ExecutionOutcome)
    ensures
        call is Ok ==> o.status == ExecutionStatus::Success && o.error_class is None,
        call is Err ==> o.status == ExecutionStatus::Failed && o.error_class is Some
            && o.error_class->Some_0@ == call->Err_0.spec_code(),
{
    match call {
        Ok(_) => ExecutionOutcome { status: ExecutionStatus::Success, error_class: None },
        Err(e) => ExecutionOutcome {
            status: ExecutionStatus::Failed,
            error_class: Some(String::from_str(e.code())),
        },
    }
}

} // verus!
