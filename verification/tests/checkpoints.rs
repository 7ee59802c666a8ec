use kicad_gateway::checkpoints::{
    check_delete, check_restore, checkpoint_created_at_text, checkpoint_from_row,
    checkpoint_from_stored_row, clear_steps, copy_steps, is_excluded,
    CheckpointError,
    CheckpointMetadata, ClearStep, CopyStep, DirEntryInfo,
};
use kicad_gateway::error::CompanionError;
use kicad_gateway::ids::{CheckpointId, SessionId, TaskId, WorkspaceId};
use kicad_gateway::time_model::Timestamp;

fn metadata(workspace_id: WorkspaceId) -> CheckpointMetadata {
    CheckpointMetadata {
        checkpoint_id: CheckpointId::new(),
        workspace_id,
        session_id: None,
        task_id: None,
        created_at: Timestamp::unix_epoch(),
        root_snapshot_path: "/data/checkpoints/ws/chk".to_string(),
    }
}

fn entry(path: &str, is_dir: bool) -> DirEntryInfo {
    DirEntryInfo {
        canonical_path: path.as_bytes().to_vec(),
        is_dir,
    }
}

#[test]
fn restore_rejects_a_checkpoint_from_a_different_workspace() {
    let m = metadata(WorkspaceId::new());
    let result = check_restore(&Some(m), WorkspaceId::new(), true);
    assert!(matches!(result, Err(CheckpointError::WorkspaceMismatch)));
}

#[test]
fn restore_fails_explicitly_when_snapshot_data_is_missing_on_disk() {
    let ws = WorkspaceId::new();
    let result = check_restore(&Some(metadata(ws)), ws, false);
    assert!(matches!(result, Err(CheckpointError::SnapshotMissing)));
}

#[test]
fn restore_of_an_unknown_checkpoint_is_not_found() {
    assert_eq!(check_restore(&None, WorkspaceId::new(), true), Err(CheckpointError::NotFound));
}

#[test]
fn restore_goes_ahead_for_its_own_workspace_with_data_present() {
    let ws = WorkspaceId::new();
    assert_eq!(check_restore(&Some(metadata(ws)), ws, true), Ok(()));
}

#[test]
fn delete_removes_only_the_specified_checkpoint() {
    let m = metadata(WorkspaceId::new());
    assert_eq!(check_delete(&Some(m.clone())), Ok(m.checkpoint_id));
    assert_eq!(check_delete(&None), Err(CheckpointError::NotFound));
}

#[test]
fn exclusion_matches_a_symlink_alias_of_the_same_directory() {
    // Both sides are compared after canonicalisation, so an alias that
    // resolves to the checkpoints root is excluded like the root itself.
    assert!(is_excluded(b"/tmp/real-checkpoints", b"/tmp/real-checkpoints"));
    assert!(!is_excluded(b"/tmp/real-checkpoints/nested", b"/tmp/real-checkpoints"));
}

#[test]
fn checkpoints_directory_nested_in_workspace_never_recurses_into_itself() {
    let entries = vec![
        entry("/ws/board.kicad_pcb", false),
        entry("/ws/.companion-checkpoints", true),
        entry("/ws/lib", true),
    ];
    let steps = copy_steps(&entries, b"/ws/.companion-checkpoints");
    assert_eq!(steps, vec![CopyStep::CopyFile, CopyStep::Skip, CopyStep::Descend]);
    let steps = clear_steps(&entries, b"/ws/.companion-checkpoints");
    assert_eq!(steps, vec![ClearStep::RemoveFile, ClearStep::Keep, ClearStep::RemoveDir]);
}

#[test]
fn checkpoint_error_codes_are_stable_and_not_retryable() {
    assert_eq!(CheckpointError::NotFound.code(), "CHECKPOINT_NOT_FOUND");
    assert_eq!(CheckpointError::WorkspaceMismatch.code(), "CHECKPOINT_WORKSPACE_MISMATCH");
    assert_eq!(CheckpointError::SnapshotMissing.code(), "CHECKPOINT_SNAPSHOT_MISSING");
    assert_eq!(CheckpointError::Io("x".to_string()).code(), "CHECKPOINT_IO");
    assert_eq!(CheckpointError::Storage("x".to_string()).code(), "CHECKPOINT_STORAGE");
    assert!(!CheckpointError::NotFound.retryable());
}

#[test]
fn create_records_session_and_task_association() {
    let checkpoint_id = CheckpointId::new();
    let workspace_id = WorkspaceId::new();
    let session_id = SessionId::new();
    let task_id = TaskId::new();
    let row = checkpoint_from_row(
        &checkpoint_id.to_string(),
        &workspace_id.to_string(),
        Some(&session_id.to_string()),
        Some(&task_id.to_string()),
        Ok(Timestamp::unix_epoch()),
        "/data/checkpoints/x".to_string(),
    )
    .unwrap();
    assert_eq!(row.checkpoint_id, checkpoint_id);
    assert_eq!(row.workspace_id, workspace_id);
    assert_eq!(row.session_id, Some(session_id));
    assert_eq!(row.task_id, Some(task_id));
    assert_eq!(row.root_snapshot_path, "/data/checkpoints/x");
}

#[test]
fn each_checkpoint_gets_a_unique_id() {
    assert_ne!(CheckpointId::new(), CheckpointId::new());
}

#[test]
fn corrupt_checkpoint_rows_are_storage_errors() {
    let workspace_id = WorkspaceId::new().to_string();
    let checkpoint_id = CheckpointId::new().to_string();
    assert!(matches!(
        checkpoint_from_row("ws_wrong", &workspace_id, None, None, Ok(Timestamp::unix_epoch()), String::new()),
        Err(CheckpointError::Storage(_))
    ));
    assert!(matches!(
        checkpoint_from_row(&checkpoint_id, &workspace_id, Some("sess_bad"), None, Ok(Timestamp::unix_epoch()), String::new()),
        Err(CheckpointError::Storage(_))
    ));
    assert_eq!(
        checkpoint_from_row(&checkpoint_id, &workspace_id, None, None, Err("bad time".to_string()), String::new()),
        Err(CheckpointError::Storage("bad time".to_string()))
    );
}

#[test]
fn paths_are_compared_as_bytes_not_as_lossy_text() {
    // Two distinct non-UTF-8 paths would read the same after a lossy
    // conversion; as bytes they stay distinct.
    assert!(!is_excluded(b"/ws/\xff", b"/ws/\xfe"));
    assert!(is_excluded(b"/ws/\xff", b"/ws/\xff"));
}

#[test]
fn stored_checkpoint_rows_read_their_rfc3339_creation_time() {
    let ws = WorkspaceId::new();
    let chk = kicad_gateway::ids::CheckpointId::new();
    let text = checkpoint_created_at_text(Timestamp::unix_epoch()).expect("epoch is writable");
    assert_eq!(text, "1970-01-01T00:00:00Z");
    let m = checkpoint_from_stored_row(
        &chk.to_string(),
        &ws.to_string(),
        None,
        None,
        "1970-01-01T00:00:01Z",
        "/data/checkpoints/x".to_string(),
    )
    .expect("a good row reads back");
    assert_eq!(m.created_at.unix_nanos, 1_000_000_000);
    assert_eq!(m.workspace_id, ws);
    assert!(matches!(
        checkpoint_from_stored_row(
            &chk.to_string(),
            &ws.to_string(),
            None,
            None,
            "not a time",
            String::new(),
        ),
        Err(CheckpointError::Storage(_))
    ));
}
