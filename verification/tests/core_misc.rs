use kicad_gateway::audit::{update_outcome, AuditError};
use kicad_gateway::clock::{Clock, FakeClock, SystemClock};
use kicad_gateway::error::CompanionError;
use kicad_gateway::ids::WorkspaceId;
use kicad_gateway::text::{strip_prefix, text_eq};
use kicad_gateway::time_model::{Duration, Timestamp};
use kicad_gateway::workspace_set::WorkspaceIdSet;

#[test]
fn fake_clock_advances_deterministically() {
    let mut clock = FakeClock::new_at(Timestamp::unix_epoch());
    let t0 = clock.now();
    clock.advance(Duration::seconds(60));
    let t1 = clock.now();
    assert_eq!(t1.unix_nanos - t0.unix_nanos, Duration::seconds(60).nanos);
}

#[test]
fn fake_clock_does_not_advance_on_its_own() {
    let clock = FakeClock::new_at(Timestamp::unix_epoch());
    let t0 = clock.now();
    let t1 = clock.now();
    assert_eq!(t0, t1);
}

#[test]
fn system_clock_reports_a_recent_time() {
    let clock = SystemClock;
    let now = clock.now();
    // 2026-01-01T00:00:00Z
    assert!(now.unix_nanos >= 1_767_225_600_000_000_000);
}

#[test]
fn audit_update_of_a_missing_record_is_a_typed_error() {
    assert_eq!(update_outcome(0), Err(AuditError::NotFound));
    assert_eq!(update_outcome(1), Ok(()));
    assert_eq!(AuditError::NotFound.code(), "AUDIT_NOT_FOUND");
    assert_eq!(AuditError::Storage("x".to_string()).code(), "AUDIT_STORAGE");
    assert!(!AuditError::NotFound.retryable());
}

#[test]
fn timestamps_add_within_range() {
    let epoch = Timestamp::unix_epoch();
    assert_eq!(epoch.unix_nanos, 0);
    let later = epoch.checked_add(Duration::hours(1)).unwrap();
    assert_eq!(later.unix_nanos, 3_600_000_000_000);
    assert!(epoch.is_before(later));
    assert_eq!(later.earliest(epoch), epoch);
    assert_eq!(later.minus(Duration::hours(1)), epoch);
    let max = Timestamp::from_unix_nanos(253_402_300_799_999_999_999).unwrap();
    assert!(max.checked_add(Duration::nanoseconds(1)).is_none());
    assert!(Timestamp::from_unix_nanos(253_402_300_800_000_000_000).is_none());
}

#[test]
fn durations_are_exact() {
    assert_eq!(Duration::zero().nanos, 0);
    assert_eq!(Duration::minutes(2).nanos, 120_000_000_000);
    assert_eq!(Duration::hours(1), Duration::minutes(60));
}

#[test]
fn workspace_set_keeps_each_id_once() {
    let a = WorkspaceId::new();
    let b = WorkspaceId::new();
    let mut set = WorkspaceIdSet::new();
    assert!(set.is_empty());
    assert!(set.insert(a));
    assert!(!set.insert(a));
    assert!(set.insert(b));
    assert_eq!(set.len(), 2);
    assert!(set.contains(&a));
    let single = WorkspaceIdSet::from_slice(&[b, b]);
    assert_eq!(single.len(), 1);
    assert!(single.is_subset(&set));
    assert!(!set.is_subset(&single));
    assert_eq!(set.first_missing_from(&single), Some(a));
    let mut sorted = vec![a, b];
    sorted.sort();
    assert_eq!(set.to_vec(), sorted);
}

#[test]
fn text_helpers() {
    assert!(text_eq("abc", "abc"));
    assert!(!text_eq("abc", "abd"));
    assert_eq!(strip_prefix("dev_123", "dev_"), Some("123"));
    assert_eq!(strip_prefix("de", "dev_"), None);
}

#[test]
fn update_execution_for_unknown_operation_is_a_typed_error() {
    let result = update_outcome(0);
    assert!(matches!(result, Err(AuditError::NotFound)));
}
