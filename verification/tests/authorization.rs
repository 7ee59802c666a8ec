use kicad_gateway::authorization::{
    grant_from_legacy_session, AccessGrant, AuthorizationError, AuthorizationLease,
    AuthorizationPrincipal, AuthorizationStatus, GrantKind, GrantRequest,
    LegacySessionMappingError, LeaseRequest, PrincipalAssurance,
};
use kicad_gateway::capability::{Capability, CapabilityProfile, CapabilitySet};
use kicad_gateway::ids::{DeviceId, GrantId, LeaseId, OperationId, SessionId, WorkspaceId};
use kicad_gateway::session::{ApprovalPolicy, Session, SessionStatus};
use kicad_gateway::time_model::{Duration, Timestamp};
use kicad_gateway::workspace_set::WorkspaceIdSet;

fn now() -> Timestamp {
    Timestamp::unix_epoch()
}

fn grant_request(kind: GrantKind) -> GrantRequest {
    GrantRequest {
        subject_session_id: SessionId::new(),
        device_id: DeviceId::new(),
        principal: AuthorizationPrincipal::unverified("agent:test"),
        workspace_ids: WorkspaceIdSet::from_slice(&[WorkspaceId::new()]),
        capability_profile: CapabilityProfile::Inspect,
        task_scope: "inspect the board".into(),
        kind,
        lifetime: Duration::hours(1),
    }
}

fn active_grant(kind: GrantKind) -> AccessGrant {
    let mut grant = AccessGrant::requested(grant_request(kind), now());
    grant.status = AuthorizationStatus::Active;
    grant.approved_at = Some(now());
    grant
}

fn lease_request(grant: &AccessGrant) -> LeaseRequest {
    LeaseRequest {
        workspace_ids: grant.workspace_ids.clone(),
        capabilities: grant.effective_capabilities,
        lifetime: Duration::minutes(30),
    }
}

#[test]
fn a_requested_grant_carries_no_authority_before_local_approval() {
    let grant = AccessGrant::requested(grant_request(GrantKind::Standing), now());
    assert_eq!(grant.status, AuthorizationStatus::PendingApproval);
    assert!(!grant.is_usable_at(now()));
    assert!(!grant.is_usable_at(now().minus(Duration::hours(1))));
}

#[test]
fn an_unverified_principal_is_all_this_build_can_assert() {
    let principal = AuthorizationPrincipal::unverified("agent:test");
    assert_eq!(principal.assurance, PrincipalAssurance::Unverified);
    assert!(principal.is_unverified());
}

#[test]
fn approved_unexpired_grant_is_usable() {
    let grant = active_grant(GrantKind::Standing);
    assert!(grant.is_usable_at(now()));
    assert!(!grant.is_usable_at(grant.expires_at));
    assert!(!grant.is_usable_at(grant.expires_at.plus(Duration::seconds(1))));
}

#[test]
fn grant_records_effective_capabilities_from_its_profile() {
    let grant = active_grant(GrantKind::Standing);
    assert_eq!(
        grant.effective_capabilities,
        CapabilityProfile::Inspect.effective_capabilities()
    );
    assert!(grant.allows_capability(&Capability::SCHEMATIC_READ));
    assert!(!grant.allows_capability(&Capability::SCHEMATIC_WRITE));
}

#[test]
fn revoked_and_expired_grants_are_terminal_and_not_terminal_statuses_are() {
    for status in [
        AuthorizationStatus::PendingApproval,
        AuthorizationStatus::Active,
        AuthorizationStatus::Suspended,
    ] {
        assert!(!status.is_terminal(), "{status:?} must not be terminal");
    }
    for status in [
        AuthorizationStatus::Revoked,
        AuthorizationStatus::Expired,
        AuthorizationStatus::Consumed,
    ] {
        assert!(status.is_terminal(), "{status:?} must be terminal");
    }
}

#[test]
fn lease_is_never_wider_or_longer_than_its_grant() {
    let grant = active_grant(GrantKind::Standing);
    let request = LeaseRequest {
        workspace_ids: grant.workspace_ids.clone(),
        capabilities: grant.effective_capabilities,
        lifetime: Duration::hours(10),
    };
    let lease = AuthorizationLease::issued_for(&grant, request, now()).unwrap();
    assert_eq!(lease.expires_at, grant.expires_at);
    assert_eq!(lease.device_id, grant.device_id);
    assert_eq!(lease.principal, grant.principal);
    assert_eq!(lease.grant_id, grant.grant_id);
}

#[test]
fn lease_issuance_refuses_an_unapproved_or_expired_or_revoked_grant() {
    let pending = AccessGrant::requested(grant_request(GrantKind::Standing), now());
    assert!(matches!(
        AuthorizationLease::issued_for(&pending, lease_request(&pending), now()),
        Err(AuthorizationError::GrantNotApproved {
            status: AuthorizationStatus::PendingApproval
        })
    ));

    let mut expired = active_grant(GrantKind::Standing);
    expired.status = AuthorizationStatus::Expired;
    assert!(matches!(
        AuthorizationLease::issued_for(&expired, lease_request(&expired), now()),
        Err(AuthorizationError::GrantExpired { .. })
    ));

    let mut revoked = active_grant(GrantKind::Standing);
    revoked.status = AuthorizationStatus::Revoked;
    assert!(matches!(
        AuthorizationLease::issued_for(&revoked, lease_request(&revoked), now()),
        Err(AuthorizationError::GrantRevoked)
    ));
}

#[test]
fn lease_issuance_refuses_scope_the_grant_does_not_cover() {
    let grant = active_grant(GrantKind::Standing);

    let other_workspace = LeaseRequest {
        workspace_ids: WorkspaceIdSet::from_slice(&[WorkspaceId::new()]),
        capabilities: grant.effective_capabilities,
        lifetime: Duration::minutes(5),
    };
    assert!(matches!(
        AuthorizationLease::issued_for(&grant, other_workspace, now()),
        Err(AuthorizationError::WorkspaceNotGranted { .. })
    ));

    let extra_capability = LeaseRequest {
        workspace_ids: grant.workspace_ids.clone(),
        capabilities: CapabilitySet::from_slice(&[Capability::MANUFACTURING_EXPORT]),
        lifetime: Duration::minutes(5),
    };
    assert!(matches!(
        AuthorizationLease::issued_for(&grant, extra_capability, now()),
        Err(AuthorizationError::CapabilityNotGranted {
            capability: Capability::MANUFACTURING_EXPORT
        })
    ));

    let empty = LeaseRequest {
        workspace_ids: WorkspaceIdSet::new(),
        capabilities: grant.effective_capabilities,
        lifetime: Duration::minutes(5),
    };
    assert!(matches!(
        AuthorizationLease::issued_for(&grant, empty, now()),
        Err(AuthorizationError::EmptyScope)
    ));
}

#[test]
fn revoking_the_grant_invalidates_a_live_lease() {
    let grant = active_grant(GrantKind::Standing);
    let lease = AuthorizationLease::issued_for(&grant, lease_request(&grant), now()).unwrap();
    assert!(lease.validate_against(&grant, now()).is_ok());

    let mut revoked = grant.clone();
    revoked.status = AuthorizationStatus::Revoked;
    assert_eq!(
        lease.validate_against(&revoked, now()),
        Err(AuthorizationError::GrantRevoked),
        "a lease cannot outlive the revocation of its grant, whatever the transport does"
    );
}

#[test]
fn expiry_of_the_grant_invalidates_a_live_lease() {
    let grant = active_grant(GrantKind::Standing);
    let lease = AuthorizationLease::issued_for(&grant, lease_request(&grant), now()).unwrap();
    let later = grant.expires_at;
    assert!(lease.validate_against(&grant, later).is_err());
}

#[test]
fn a_consumed_lease_cannot_be_spent_twice() {
    let grant = active_grant(GrantKind::Standing);
    let lease = AuthorizationLease::issued_for(&grant, lease_request(&grant), now()).unwrap();
    let operation_id = OperationId::new();
    let spent = lease.consumed_by(operation_id, now()).unwrap();
    assert_eq!(spent.consumed_by_operation, Some(operation_id));
    assert!(!spent.is_valid_at(now()));
    assert_eq!(
        lease.validate_against(&grant, now()),
        Ok(()),
        "the unspent original is still spendable exactly once"
    );
    assert!(matches!(
        spent.validate_against(&grant, now()),
        Err(AuthorizationError::LeaseAlreadyConsumed { .. })
    ));
}

#[test]
fn only_a_standing_grant_may_issue_more_than_one_lease() {
    let standing = active_grant(GrantKind::Standing);
    assert!(standing.may_issue_another_lease());
    let one_shot = active_grant(GrantKind::OneShot);
    assert!(one_shot.may_issue_another_lease());
    let spent_one_shot = AccessGrant {
        issued_lease_id: Some(LeaseId::new()),
        ..one_shot.clone()
    };
    assert!(!spent_one_shot.may_issue_another_lease());
    assert!(matches!(
        AuthorizationLease::issued_for(&spent_one_shot, lease_request(&spent_one_shot), now()),
        Err(AuthorizationError::OneShotLeaseAlreadyIssued { .. })
    ));
}

fn legacy_session(status: SessionStatus) -> Session {
    Session {
        session_id: SessionId::new(),
        device_id: DeviceId::new(),
        remote_principal: "agent:legacy".into(),
        workspace_ids: WorkspaceIdSet::from_slice(&[WorkspaceId::new()]),
        capability_profile: CapabilityProfile::Inspect,
        effective_capabilities: CapabilityProfile::Inspect.effective_capabilities(),
        task_scope: "legacy task".into(),
        issued_at: now(),
        approved_at: Some(now()),
        expires_at: now().plus(Duration::hours(1)),
        risk_policy_version: 1,
        approval_policy: ApprovalPolicy::Standard,
        status,
    }
}

#[test]
fn legacy_pairing_and_connectivity_rows_mint_no_authority() {
    for status in [
        SessionStatus::Unpaired,
        SessionStatus::Paired,
        SessionStatus::Connected,
        SessionStatus::Disconnected,
    ] {
        let session = legacy_session(status);
        assert_eq!(
            grant_from_legacy_session(&session),
            Ok(None),
            "{status:?} never carried authority and must not mint any"
        );
    }
}

#[test]
fn legacy_authority_rows_map_with_their_own_state_preserved() {
    let session = legacy_session(SessionStatus::Active);
    let mapping = grant_from_legacy_session(&session)
        .unwrap()
        .expect("active legacy session carried authority");
    assert_eq!(mapping.status, AuthorizationStatus::Active);
    assert!(mapping.is_usable_at(now()));
    assert_eq!(mapping.migrated_from_session_id, Some(session.session_id));
    assert_eq!(mapping.subject_session_id, session.session_id);
    assert_eq!(
        mapping.grant_id,
        GrantId::from_ulid(session.session_id.as_ulid()),
        "a migrated grant id is derived from the row it came from"
    );
    assert!(mapping.principal.is_unverified());

    let revoked = grant_from_legacy_session(&legacy_session(SessionStatus::Revoked))
        .unwrap()
        .expect("revoked legacy session stays auditable as revoked");
    assert_eq!(revoked.status, AuthorizationStatus::Revoked);
    assert!(!revoked.is_usable_at(now()));
    assert!(revoked.is_terminal());
    assert!(
        revoked
            .migration_note
            .clone()
            .is_some_and(|note| note.contains("no revocation timestamp")),
        "migration must not invent a revocation timestamp: {:?}",
        revoked.revoked_at
    );

    let expired = grant_from_legacy_session(&legacy_session(SessionStatus::Expired))
        .unwrap()
        .expect("expired legacy session stays auditable as expired");
    assert_eq!(expired.status, AuthorizationStatus::Expired);

    let pending = grant_from_legacy_session(&legacy_session(SessionStatus::PendingApproval))
        .unwrap()
        .expect("pending legacy session maps to a pending grant");
    assert_eq!(pending.status, AuthorizationStatus::PendingApproval);
    assert!(!pending.is_usable_at(now()));

    let suspended = grant_from_legacy_session(&legacy_session(SessionStatus::Suspended))
        .unwrap()
        .expect("suspended legacy session maps to a suspended grant");
    assert_eq!(suspended.status, AuthorizationStatus::Suspended);
}

#[test]
fn legacy_mapping_is_deterministic_across_repeated_runs() {
    let session = legacy_session(SessionStatus::Active);
    let first = grant_from_legacy_session(&session).unwrap().unwrap();
    let second = grant_from_legacy_session(&session).unwrap().unwrap();
    assert_eq!(first, second, "re-migrating a row must not fork authority");
}

#[test]
fn corrupt_legacy_rows_are_refused_rather_than_mapped() {
    let mut active_without_approval = legacy_session(SessionStatus::Active);
    active_without_approval.approved_at = None;
    assert!(matches!(
        grant_from_legacy_session(&active_without_approval),
        Err(LegacySessionMappingError::ActiveWithoutApproval { .. })
    ));

    let mut no_workspace = legacy_session(SessionStatus::Active);
    no_workspace.workspace_ids = WorkspaceIdSet::new();
    assert!(matches!(
        grant_from_legacy_session(&no_workspace),
        Err(LegacySessionMappingError::NoWorkspace { .. })
    ));

    let mut backwards_expiry = legacy_session(SessionStatus::Active);
    backwards_expiry.expires_at = backwards_expiry.issued_at;
    assert!(matches!(
        grant_from_legacy_session(&backwards_expiry),
        Err(LegacySessionMappingError::NonPositiveLifetime { .. })
    ));
}

#[test]
fn a_lease_of_another_grant_is_foreign() {
    let grant = active_grant(GrantKind::Standing);
    let other = active_grant(GrantKind::Standing);
    let lease = AuthorizationLease::issued_for(&grant, lease_request(&grant), now()).unwrap();
    assert_eq!(
        lease.validate_against(&other, now()),
        Err(AuthorizationError::ForeignGrant)
    );
}

#[test]
fn a_non_positive_lease_lifetime_is_refused() {
    let grant = active_grant(GrantKind::Standing);
    let request = LeaseRequest {
        workspace_ids: grant.workspace_ids.clone(),
        capabilities: grant.effective_capabilities,
        lifetime: Duration::zero(),
    };
    assert_eq!(
        AuthorizationLease::issued_for(&grant, request, now()),
        Err(AuthorizationError::NonPositiveLifetime)
    );
}

#[test]
fn a_one_shot_grant_records_the_single_lease_it_cut() {
    let grant = active_grant(GrantKind::OneShot);
    let lease = AuthorizationLease::issued_for(&grant, lease_request(&grant), now()).unwrap();
    assert!(lease.is_valid_at(now()));
    assert!(!lease.is_valid_at(lease.expires_at));
    assert_eq!(lease.expires_at, now().plus(Duration::minutes(30)));
}
