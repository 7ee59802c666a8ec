use kicad_gateway::audit::{AuditError, ExecutionStatus, PolicyResultKind};
use kicad_gateway::authorization::{
    AccessGrant, AuthorizationPrincipal, AuthorizationStatus, GrantKind, GrantRequest,
    PrincipalAssurance,
};
use kicad_gateway::bridge::CoreBridgeError;
use kicad_gateway::capability::{Capability, CapabilityProfile};
use kicad_gateway::daemon::{
    approval_result, audit_refusal, bound_local_device_id, build_audit_event, decide_approval,
    denial_result, execution_outcome, handle_operation_request, session_grant, missing_authority_denial, operation_device_bound,
    operation_disposition, resolve_authority, session_access_request, still_authorized,
    ApprovalStep, DaemonError, DenyReason, OperationDisposition, PolicyDecision,
    AUDIT_FAIL_CLOSED_MESSAGE,
};
use kicad_gateway::error::CompanionError;
use kicad_gateway::ids::{DeviceId, OperationId, SessionId, WorkspaceId};
use kicad_gateway::operation::OperationRequest;
use kicad_gateway::pending::{PendingOperation, PendingOperations};
use kicad_gateway::risk::RiskLevel;
use kicad_gateway::session::{ApprovalPolicy, Session, SessionStatus};
use kicad_gateway::status::{
    authorization_status_label, count_pending_grants, count_usable_grants, pairing_code,
};
use kicad_gateway::time_model::{Duration, Timestamp};
use kicad_gateway::workspace_set::WorkspaceIdSet;

fn now() -> Timestamp {
    Timestamp::unix_epoch()
}

fn request(session_id: SessionId, tool: &str) -> OperationRequest {
    let mut arguments = serde_json::Map::new();
    arguments.insert(
        "sheet".to_string(),
        serde_json::Value::String("super-secret-argument-value".to_string()),
    );
    OperationRequest {
        operation_id: OperationId::new(),
        session_id,
        workspace_id: WorkspaceId::new(),
        tool_name: tool.to_string(),
        arguments,
        target_path: None,
        requested_at: now(),
    }
}

fn pending(session_id: SessionId) -> PendingOperation {
    PendingOperation {
        request: request(session_id, "pcb_auto_place_by_schematic"),
        capability: Capability::PCB_WRITE,
        risk: RiskLevel::High,
    }
}

fn grant(device_id: DeviceId, principal: &str) -> AccessGrant {
    AccessGrant::requested(
        GrantRequest {
            subject_session_id: SessionId::new(),
            device_id,
            principal: AuthorizationPrincipal::unverified(principal),
            workspace_ids: WorkspaceIdSet::from_slice(&[WorkspaceId::new()]),
            capability_profile: CapabilityProfile::Design,
            task_scope: "route the board".to_string(),
            kind: GrantKind::Standing,
            lifetime: Duration::hours(1),
        },
        now(),
    )
}

fn session(device_id: DeviceId, status: SessionStatus) -> Session {
    Session {
        session_id: SessionId::new(),
        device_id,
        remote_principal: "agent:legacy".into(),
        workspace_ids: WorkspaceIdSet::from_slice(&[WorkspaceId::new()]),
        capability_profile: CapabilityProfile::Inspect,
        effective_capabilities: CapabilityProfile::Inspect.effective_capabilities(),
        task_scope: "legacy task".into(),
        issued_at: now(),
        approved_at: Some(now()),
        expires_at: now().plus(Duration::hours(1)),
        risk_policy_version: 1,
        approval_policy: ApprovalPolicy::Standard,
        status,
    }
}

#[test]
fn device_binding_requires_the_persistent_local_id() {
    let local = DeviceId::new();
    assert_eq!(bound_local_device_id(None, Some(local)), None);
    assert_eq!(bound_local_device_id(Some(DeviceId::new()), Some(local)), None);
    assert_eq!(bound_local_device_id(Some(local), None), None);
    assert_eq!(bound_local_device_id(Some(local), Some(local)), Some(local));
}

#[test]
fn operation_authority_must_belong_to_the_local_device() {
    let local = DeviceId::new();
    let other = DeviceId::new();
    assert!(operation_device_bound(&Some(grant(local, "a")), &None, local));
    assert!(!operation_device_bound(&Some(grant(other, "a")), &Some(session(local, SessionStatus::Active)), local));
    assert!(operation_device_bound(&None, &Some(session(local, SessionStatus::Active)), local));
    assert!(!operation_device_bound(&None, &None, local));
}

#[test]
fn authority_is_the_persisted_grant_else_the_legacy_row() {
    let local = DeviceId::new();
    let persisted = grant(local, "agent:grant");
    let row = session(local, SessionStatus::Active);
    let resolved = resolve_authority(Some(persisted.clone()), &Some(row.clone())).unwrap();
    assert_eq!(resolved, persisted);
    let derived = resolve_authority(None, &Some(row.clone())).unwrap();
    assert_eq!(derived.migrated_from_session_id, Some(row.session_id));
    assert_eq!(derived.status, AuthorizationStatus::Active);
    assert!(resolve_authority(None, &Some(session(local, SessionStatus::Connected))).is_none());
    assert!(resolve_authority(None, &None).is_none());
}

#[test]
fn missing_authority_or_workspace_is_denied() {
    assert_eq!(missing_authority_denial(true, true), None);
    assert_eq!(
        missing_authority_denial(false, true),
        Some(DenyReason::AuthorizationNotEstablished)
    );
    assert_eq!(
        missing_authority_denial(true, false),
        Some(DenyReason::WorkspaceNotAuthorized)
    );
    assert_eq!(
        missing_authority_denial(false, false),
        Some(DenyReason::WorkspaceNotAuthorized)
    );
}

#[test]
fn audit_event_records_the_decision_and_never_the_arguments() {
    let local = DeviceId::new();
    let req = request(SessionId::new(), "sch_get_symbols");
    let g = grant(local, "agent:grant");
    let decision = PolicyDecision::Allow {
        capability: Capability::SCHEMATIC_READ,
        risk: RiskLevel::Low,
    };
    let event = build_audit_event(&req, &Some(g), &Some(session(local, SessionStatus::Active)), &decision, now());
    assert_eq!(event.operation_id, req.operation_id);
    assert_eq!(event.session_id, Some(req.session_id));
    assert_eq!(event.workspace_id, Some(req.workspace_id));
    assert_eq!(event.remote_principal, Some("agent:grant".to_string()));
    assert_eq!(event.requested_tool, "sch_get_symbols");
    assert_eq!(event.capability, Some(Capability::SCHEMATIC_READ));
    assert_eq!(event.risk, Some(RiskLevel::Low));
    assert_eq!(event.policy_result, PolicyResultKind::Allow);
    assert_eq!(event.execution_status, ExecutionStatus::NotExecuted);
    assert!(!format!("{event:?}").contains("super-secret-argument-value"));

    let denied = build_audit_event(
        &req,
        &None,
        &Some(session(local, SessionStatus::Active)),
        &PolicyDecision::Deny {
            reason: DenyReason::AuthorizationNotEstablished,
        },
        now(),
    );
    assert_eq!(denied.policy_result, PolicyResultKind::Deny);
    assert_eq!(denied.capability, None);
    assert_eq!(denied.risk, None);
    assert_eq!(denied.remote_principal, Some("agent:legacy".to_string()));
}

#[test]
fn nothing_runs_or_waits_without_an_audit_record() {
    let allow = PolicyDecision::Allow {
        capability: Capability::PCB_READ,
        risk: RiskLevel::Low,
    };
    assert_eq!(operation_disposition(allow.clone(), false), OperationDisposition::RefuseUnaudited);
    assert_eq!(operation_disposition(allow, true), OperationDisposition::Execute);
    let approval = PolicyDecision::RequireApproval {
        capability: Capability::PCB_WRITE,
        risk: RiskLevel::High,
    };
    assert_eq!(operation_disposition(approval.clone(), false), OperationDisposition::RefuseUnaudited);
    assert_eq!(
        operation_disposition(approval, true),
        OperationDisposition::AwaitApproval {
            capability: Capability::PCB_WRITE,
            risk: RiskLevel::High
        }
    );
    assert_eq!(
        operation_disposition(
            PolicyDecision::Deny {
                reason: DenyReason::WorkspaceNotAuthorized
            },
            true
        ),
        OperationDisposition::RespondDenied {
            reason: DenyReason::WorkspaceNotAuthorized
        }
    );
}

#[test]
fn audit_refusal_carries_only_a_stable_class() {
    let refusal = audit_refusal(&AuditError::Storage("database is locked at /secret/path".to_string()));
    assert_eq!(refusal.error_class, "AUDIT_STORAGE");
    assert_eq!(refusal.error, AUDIT_FAIL_CLOSED_MESSAGE);
    assert!(!refusal.retryable);
    assert!(!refusal.executed);
    assert!(!format!("{refusal:?}").contains("/secret/path"));
}

#[test]
fn an_undurable_approval_requeues_and_a_durable_one_executes() {
    let failed = Err(AuditError::Storage("disk full".to_string()));
    let step = decide_approval(&failed, true);
    assert_eq!(step, ApprovalStep::Requeue { code: "AUDIT_STORAGE" });
    assert_eq!(
        approval_result(&step),
        Err(DaemonError::AuditPersistence {
            code: "AUDIT_STORAGE"
        })
    );
    assert_eq!(decide_approval(&Ok(()), true), ApprovalStep::Execute);
    assert_eq!(approval_result(&ApprovalStep::Execute), Ok(()));
    assert_eq!(decide_approval(&Ok(()), false), ApprovalStep::RefuseStale);
    assert!(matches!(
        approval_result(&ApprovalStep::RefuseStale),
        Err(DaemonError::Internal(_))
    ));
}

#[test]
fn an_unrecorded_denial_is_reported_and_the_operation_leaves_the_queue() {
    assert_eq!(denial_result(&Ok(())), Ok(()));
    assert_eq!(
        denial_result(&Err(AuditError::Storage("locked".to_string()))),
        Err(DaemonError::AuditPersistence {
            code: "AUDIT_STORAGE"
        })
    );
    let mut queue = PendingOperations::new();
    let p = pending(SessionId::new());
    let id = p.request.operation_id;
    queue.insert(p);
    let taken = queue.take(id);
    assert!(taken.is_some());
    assert!(!queue.contains(id));
    assert_eq!(queue.len(), 0);
}

#[test]
fn an_approval_is_stale_when_the_policy_changed() {
    let p = pending(SessionId::new());
    assert!(still_authorized(
        &PolicyDecision::RequireApproval {
            capability: Capability::PCB_WRITE,
            risk: RiskLevel::High
        },
        &p
    ));
    assert!(!still_authorized(
        &PolicyDecision::RequireApproval {
            capability: Capability::PCB_WRITE,
            risk: RiskLevel::Critical
        },
        &p
    ));
    assert!(!still_authorized(
        &PolicyDecision::Allow {
            capability: Capability::PCB_WRITE,
            risk: RiskLevel::High
        },
        &p
    ));
    assert!(!still_authorized(
        &PolicyDecision::Deny {
            reason: DenyReason::AuthorizationNotEstablished
        },
        &p
    ));
}

#[test]
fn requeue_after_failed_approval_restores_and_never_overwrites() {
    let mut queue = PendingOperations::new();
    let p = pending(SessionId::new());
    let id = p.request.operation_id;
    queue.insert(p);
    let taken = queue.take(id).unwrap();
    assert!(!queue.contains(id));
    queue.requeue(taken);
    assert!(queue.contains(id));
    assert_eq!(queue.len(), 1);

    let mut replacement = pending(SessionId::new());
    replacement.request.operation_id = id;
    replacement.risk = RiskLevel::Critical;
    queue.requeue(replacement);
    let summaries = queue.summaries();
    assert_eq!(summaries.len(), 1);
    assert_eq!(summaries[0].risk, RiskLevel::High, "a re-decided entry is never overwritten");
}

#[test]
fn revoking_a_session_removes_exactly_its_pending_operations() {
    let revoked = SessionId::new();
    let kept = SessionId::new();
    let mut queue = PendingOperations::new();
    let a = pending(revoked);
    let b = pending(kept);
    let c = pending(revoked);
    let (ida, idb, idc) = (a.request.operation_id, b.request.operation_id, c.request.operation_id);
    queue.insert(a);
    queue.insert(b);
    queue.insert(c);
    let mut removed = queue.remove_for_session(revoked);
    removed.sort();
    let mut expected = vec![ida, idc];
    expected.sort();
    assert_eq!(removed, expected);
    assert!(queue.contains(idb));
    assert!(!queue.contains(ida));
    assert!(!queue.contains(idc));
    let summaries = queue.summaries();
    assert_eq!(summaries.len(), 1);
    assert_eq!(summaries[0].operation_id, idb);
    assert_eq!(summaries[0].session_id, kept);
    assert_eq!(summaries[0].tool_name, "pcb_auto_place_by_schematic");
}

#[test]
fn execution_outcome_names_the_bridge_error_class() {
    let ok = execution_outcome(&Ok(serde_json::Value::Null));
    assert_eq!(ok.status, ExecutionStatus::Success);
    assert_eq!(ok.error_class, None);
    let failed = execution_outcome(&Err(CoreBridgeError::Timeout));
    assert_eq!(failed.status, ExecutionStatus::Failed);
    assert_eq!(failed.error_class, Some("CORE_TIMEOUT".to_string()));
}

#[test]
fn a_session_request_records_a_standing_request_for_one_workspace() {
    let workspace_id = WorkspaceId::new();
    let request = session_access_request(
        SessionId::new(),
        DeviceId::new(),
        "agent:test",
        workspace_id,
        CapabilityProfile::Design,
        "device binding test",
        Duration::minutes(7),
    );
    assert_eq!(request.kind, GrantKind::Standing);
    assert_eq!(request.principal.assurance, PrincipalAssurance::Unverified);
    assert_eq!(request.principal.name, "agent:test");
    assert_eq!(request.workspace_ids.to_vec(), vec![workspace_id]);
    let grant = AccessGrant::requested(request, now());
    assert_eq!(grant.status, AuthorizationStatus::PendingApproval);
    assert!(!grant.is_usable_at(now()));
    assert_eq!(grant.expires_at, now().plus(Duration::minutes(7)));
}

#[test]
fn daemon_error_codes_are_stable() {
    assert_eq!(DaemonError::SessionNotFound.code(), "SESSION_NOT_FOUND");
    assert_eq!(DaemonError::Internal("x".to_string()).code(), "IPC_INTERNAL");
    assert_eq!(
        DaemonError::SecretStoreUnavailable.code(),
        "IDENTITY_SECRET_STORE_UNAVAILABLE"
    );
    assert_eq!(
        DaemonError::AuditPersistence {
            code: "AUDIT_STORAGE"
        }
        .code(),
        "AUDIT_STORAGE"
    );
    assert!(!DaemonError::SessionNotFound.retryable());
}

#[test]
fn pairing_code_takes_the_first_eight_fingerprint_characters() {
    assert_eq!(pairing_code("6668-7AAD-F862-BD77-6C8F"), "KMP-6668-7AAD");
    assert_eq!(pairing_code("AB-C"), "KMP-ABC-");
    assert_eq!(pairing_code("ABCDE"), "KMP-ABCD-E");
    assert_eq!(pairing_code(""), "KMP--");
}

#[test]
fn status_counts_usable_and_pending_grants() {
    let local = DeviceId::new();
    let pending_grant = grant(local, "a");
    let mut active = grant(local, "b");
    active.status = AuthorizationStatus::Active;
    let mut revoked = grant(local, "c");
    revoked.status = AuthorizationStatus::Revoked;
    let grants = vec![pending_grant, active.clone(), revoked];
    assert_eq!(count_usable_grants(&grants, now()), 1);
    assert_eq!(count_usable_grants(&grants, active.expires_at), 0);
    assert_eq!(count_pending_grants(&grants), 1);
}

#[test]
fn session_views_show_the_first_grant_status_or_none() {
    let a = SessionId::new();
    let b = SessionId::new();
    let statuses = vec![
        (a, AuthorizationStatus::PendingApproval),
        (a, AuthorizationStatus::Active),
    ];
    assert_eq!(authorization_status_label(&statuses, a), "pendingapproval");
    assert_eq!(authorization_status_label(&statuses, b), "none");
}

#[test]
fn audit_event_shape_never_carries_a_raw_payload_or_target_path_field() {
    let mut req = request(SessionId::new(), "sch_get_symbols");
    req.target_path = Some("/home/user/secret-project/board.kicad_pcb".to_string());
    let event = build_audit_event(
        &req,
        &None,
        &None,
        &PolicyDecision::Deny {
            reason: DenyReason::AuthorizationNotEstablished,
        },
        now(),
    );
    let rendered = format!("{event:?}");
    assert!(!rendered.contains("target_path"));
    assert!(!rendered.contains("payload"));
    assert!(!rendered.contains("secret-project"));
    assert!(!rendered.contains("super-secret-argument-value"));
}

#[test]
fn operation_pipeline_binds_resolves_decides_records_and_disposes() {
    let device = DeviceId::new();
    let g = grant(device, "agent:a");
    let subject = g.subject_session_id;
    let req = request(subject, "sch_get_symbols");

    // Wrong claimed device: dropped, the policy is never asked and nothing is recorded.
    let dropped = handle_operation_request(
        Some(DeviceId::new()),
        Some(device),
        Some(g.clone()),
        &None,
        true,
        &req,
        now(),
        |_r: &OperationRequest, _g: &AccessGrant| -> PolicyDecision { panic!("policy asked") },
        |_e: &kicad_gateway::audit::AuditEvent| -> Result<(), AuditError> { panic!("recorded") },
    );
    assert!(dropped.is_none());

    // Authority bound to another device: dropped.
    let foreign = grant(DeviceId::new(), "agent:b");
    assert!(handle_operation_request(
        Some(device),
        Some(device),
        Some(foreign),
        &None,
        true,
        &req,
        now(),
        |_r: &OperationRequest, _g: &AccessGrant| -> PolicyDecision { panic!("policy asked") },
        |_e: &kicad_gateway::audit::AuditEvent| -> Result<(), AuditError> { panic!("recorded") },
    )
    .is_none());

    // Unknown workspace: denied without asking the policy, recorded, answered.
    let denied = handle_operation_request(
        Some(device),
        Some(device),
        Some(g.clone()),
        &None,
        false,
        &req,
        now(),
        |_r: &OperationRequest, _g: &AccessGrant| -> PolicyDecision { panic!("policy asked") },
        |_e: &kicad_gateway::audit::AuditEvent| -> Result<(), AuditError> { Ok(()) },
    )
    .expect("not dropped");
    assert_eq!(
        denied.disposition,
        OperationDisposition::RespondDenied { reason: DenyReason::WorkspaceNotAuthorized }
    );
    assert_eq!(denied.event.policy_result, PolicyResultKind::Deny);
    assert!(denied.refusal.is_none());

    // Allowed by the policy but the audit record fails: refused, nothing runs.
    let refused = handle_operation_request(
        Some(device),
        Some(device),
        Some(g.clone()),
        &None,
        true,
        &req,
        now(),
        |_r: &OperationRequest, _g: &AccessGrant| -> PolicyDecision {
            PolicyDecision::Allow { capability: Capability::SCHEMATIC_READ, risk: RiskLevel::Low }
        },
        |_e: &kicad_gateway::audit::AuditEvent| -> Result<(), AuditError> {
            Err(AuditError::Storage("disk full".to_string()))
        },
    )
    .expect("not dropped");
    assert_eq!(refused.disposition, OperationDisposition::RefuseUnaudited);
    let refusal = refused.refusal.expect("a refusal is sent back");
    assert_eq!(refusal.error_class, "AUDIT_STORAGE");
    assert!(!refusal.executed);

    // Allowed and recorded: executes, and the record names the grant's principal.
    let run = handle_operation_request(
        Some(device),
        Some(device),
        Some(g),
        &None,
        true,
        &req,
        now(),
        |_r: &OperationRequest, _g: &AccessGrant| -> PolicyDecision {
            PolicyDecision::Allow { capability: Capability::SCHEMATIC_READ, risk: RiskLevel::Low }
        },
        |_e: &kicad_gateway::audit::AuditEvent| -> Result<(), AuditError> { Ok(()) },
    )
    .expect("not dropped");
    assert_eq!(run.disposition, OperationDisposition::Execute);
    assert_eq!(run.event.remote_principal.as_deref(), Some("agent:a"));
    assert_eq!(run.event.execution_status, ExecutionStatus::NotExecuted);
}

#[test]
fn session_grant_is_pending_for_one_workspace_with_the_allowed_lifetime() {
    let device = DeviceId::new();
    let workspace = WorkspaceId::new();
    let subject = SessionId::new();
    let g = session_grant(
        subject,
        device,
        "agent:x",
        workspace,
        CapabilityProfile::Design,
        "scope",
        30,
        now(),
    )
    .expect("in range");
    assert_eq!(g.status, AuthorizationStatus::PendingApproval);
    assert_eq!(g.kind, GrantKind::Standing);
    assert_eq!(g.expires_at.unix_nanos, 30 * 60_000_000_000);
    assert_eq!(g.workspace_ids.len(), 1);
    assert!(g.workspace_ids.contains(&workspace));
    assert_eq!(g.subject_session_id, subject);
    assert!(session_grant(
        subject,
        device,
        "agent:x",
        workspace,
        CapabilityProfile::Design,
        "scope",
        i64::MAX,
        now(),
    )
    .is_none());
    let late = Timestamp::from_unix_nanos(253_402_300_799_999_999_999).expect("representable");
    assert!(session_grant(
        subject,
        device,
        "agent:x",
        workspace,
        CapabilityProfile::Design,
        "scope",
        1,
        late,
    )
    .is_none());
}
