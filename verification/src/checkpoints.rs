//! Local safe-snapshot checkpoints: a checkpoint is a full copy of an
//! authorized workspace root, stored under
//! `<checkpoints_root>/<workspace_id>/<checkpoint_id>/`.
//!
//! This module holds the decisions: which directory entries a copy or a
//! clear walks into, and when a restore or a delete is refused. Walking
//! the disk and copying bytes is the caller's work. The checkpoints root is
//! always excluded, so a checkpoint never snapshots earlier checkpoints,
//! even when the checkpoints directory lives inside the workspace.

use vstd::prelude::*;

use crate::error::CompanionError;
use crate::ids::{parsed_id_value, CheckpointId, SessionId, TaskId, WorkspaceId};
use crate::time_model::{rfc3339_format, rfc3339_instant, rfc3339_parse, rfc3339_text, Timestamp};

verus! {

/// Checkpoint failures.
#[derive(Debug, Clone, PartialEq, Eq)]
pub enum CheckpointError {
    /// No checkpoint has that id.
    NotFound,
    /// The checkpoint belongs to another workspace than the one to restore.
    WorkspaceMismatch,
    /// The checkpoint's snapshot data is missing on disk.
    SnapshotMissing,
    /// A filesystem operation failed.
    Io(String),
    /// The metadata store failed.
    Storage(String),
}

impl CompanionError for CheckpointError {
    open spec fn spec_code(&self) -> Seq<char> {
        match self {
            CheckpointError::NotFound => "CHECKPOINT_NOT_FOUND"@,
            CheckpointError::WorkspaceMismatch => "CHECKPOINT_WORKSPACE_MISMATCH"@,
            CheckpointError::SnapshotMissing => "CHECKPOINT_SNAPSHOT_MISSING"@,
            CheckpointError::Io(_) => "CHECKPOINT_IO"@,
            CheckpointError::Storage(_) => "CHECKPOINT_STORAGE"@,
        }
    }

    open spec fn spec_retryable(&self) -> bool {
        false
    }

    fn code(&self) -> (code: &'static str) {
        match self {
            CheckpointError::NotFound => "CHECKPOINT_NOT_FOUND",
            CheckpointError::WorkspaceMismatch => "CHECKPOINT_WORKSPACE_MISMATCH",
            CheckpointError::SnapshotMissing => "CHECKPOINT_SNAPSHOT_MISSING",
            CheckpointError::Io(_) => "CHECKPOINT_IO",
            CheckpointError::Storage(_) => "CHECKPOINT_STORAGE",
        }
    }

    fn retryable(&self) -> (r: bool) {
        false
    }
}

/// What is recorded of one checkpoint.
#[derive(Debug, Clone, PartialEq, Eq)]
pub struct CheckpointMetadata {
    pub checkpoint_id: CheckpointId,
    pub workspace_id: WorkspaceId,
    pub session_id: Option<SessionId>,
    pub task_id: Option<TaskId>,
    pub created_at: Timestamp,
    pub root_snapshot_path: String,
}

/// What parsing an optional id text yields: absent, the value, or a
/// failure.
pub open spec fn parsed_optional_id(prefix: Seq<char>, text: Option<Seq<char>>) -> Option<Option<u128>> {
    match text {
        None => Some(None),
        Some(t) => match parsed_id_value(prefix, t) {
            Some(v) => Some(Some(v)),
            None => None,
        },
    }
}

/// The text of an optional borrowed string.
pub open spec fn opt_str_text(s: Option<&str>) -> Option<Seq<char>> {
    match s {
        Some(t) => Some(t@),
        None => None,
    }
}

/// Reads a stored checkpoint row. Each id must parse with its own prefix
/// (checked in the order checkpoint, workspace, session, task) and the
/// creation time must have been readable; any failure is a storage error.
pub fn checkpoint_from_row(
    checkpoint_id: &str,
    workspace_id: &str,
    session_id: Option<&str>,
    task_id: Option<&str>,
    created_at: Result<Timestamp, String>,
    root_snapshot_path: String,
) -> (r: Result<CheckpointMetadata, CheckpointError>)
    ensures
        r is Ok <==> {
            &&& parsed_id_value("chk"@, checkpoint_id@) is Some
            &&& parsed_id_value("ws"@, workspace_id@) is Some
            &&& parsed_optional_id("sess"@, opt_str_text(session_id)) is Some
            &&& parsed_optional_id("task"@, opt_str_text(task_id)) is Some
            &&& created_at is Ok
        },
        r is Err ==> r->Err_0 is Storage,
        parsed_id_value("chk"@, checkpoint_id@) is Some && parsed_id_value("ws"@, workspace_id@)
            is Some && parsed_optional_id("sess"@, opt_str_text(session_id)) is Some
            && parsed_optional_id("task"@, opt_str_text(task_id)) is Some && created_at is Err ==> r
            == Err::<CheckpointMetadata, CheckpointError>(
            CheckpointError::Storage(created_at->Err_0),
        ),
        r matches Ok(m) ==> {
            &&& parsed_id_value("chk"@, checkpoint_id@) == Some(m.checkpoint_id.value())
            &&& parsed_id_value("ws"@, workspace_id@) == Some(m.workspace_id.value())
            &&& parsed_optional_id("sess"@, opt_str_text(session_id)) == Some(
                match m.session_id {
                    Some(s) => Some(s.value()),
                    None => None,
                },
            )
            &&& parsed_optional_id("task"@, opt_str_text(task_id)) == Some(
                match m.task_id {
                    Some(t) => Some(t.value()),
                    None => None,
                },
            )
            &&& created_at == Ok::<Timestamp, String>(m.created_at)
            &&& m.root_snapshot_path@ == root_snapshot_path@
        },
{
    let checkpoint_id = match CheckpointId::parse(checkpoint_id) {
        Ok(id) => id,
        Err(e) => {
            return Err(CheckpointError::Storage(e.debug_text()));
        },
    };
    let workspace_id = match WorkspaceId::parse(workspace_id) {
        Ok(id) => id,
        Err(e) => {
            return Err(CheckpointError::Storage(e.debug_text()));
        },
    };
    let session_id = match session_id {
        None => None,
        Some(text) => match SessionId::parse(text) {
            Ok(id) => Some(id),
            Err(e) => {
                return Err(CheckpointError::Storage(e.debug_text()));
            },
        },
    };
    let task_id = match task_id {
        None => None,
        Some(text) => match TaskId::parse(text) {
            Ok(id) => Some(id),
            Err(e) => {
                return Err(CheckpointError::Storage(e.debug_text()));
            },
        },
    };
    let created_at = match created_at {
        Ok(t) => t,
        Err(message) => {
            return Err(CheckpointError::Storage(message));
        },
    };
    Ok(
        CheckpointMetadata {
            checkpoint_id,
            workspace_id,
            session_id,
            task_id,
            created_at,
            root_snapshot_path,
        },
    )
}

/// The creation instant as the checkpoint store keeps it: RFC 3339 text.
/// An instant that cannot be written is a storage error.
pub fn checkpoint_created_at_text(t: Timestamp) -> (r: Result<String, CheckpointError>)
    ensures
        r is Ok <==> rfc3339_text(t.unix_nanos) is Some,
        r matches Ok(text) ==> rfc3339_text(t.unix_nanos) == Some(text@),
        r is Err ==> r->Err_0 is Storage,
{
    match rfc3339_format(t) {
        Ok(text) => Ok(text),
        Err(message) => Err(CheckpointError::Storage(message)),
    }
}

/// Reads a stored checkpoint row whose creation instant is kept as RFC 3339
/// text, as [`checkpoint_from_row`] does: each id must parse with its own
/// prefix and the creation time must be readable; any failure is a storage
/// error.
pub fn checkpoint_from_stored_row(
    checkpoint_id: &str,
    workspace_id: &str,
    session_id: Option<&str>,
    task_id: Option<&str>,
    created_at: &str,
    root_snapshot_path: String,
) -> (r: Result<CheckpointMetadata, CheckpointError>)
    ensures
        r is Ok <==> {
            &&& parsed_id_value("chk"@, checkpoint_id@) is Some
            &&& parsed_id_value("ws"@, workspace_id@) is Some
            &&& parsed_optional_id("sess"@, opt_str_text(session_id)) is Some
            &&& parsed_optional_id("task"@, opt_str_text(task_id)) is Some
            &&& rfc3339_instant(created_at@) is Some
        },
        r is Err ==> r->Err_0 is Storage,
        r matches Ok(m) ==> {
            &&& parsed_id_value("chk"@, checkpoint_id@) == Some(m.checkpoint_id.value())
            &&& parsed_id_value("ws"@, workspace_id@) == Some(m.workspace_id.value())
            &&& parsed_optional_id("sess"@, opt_str_text(session_id)) == Some(
                match m.session_id {
                    Some(s) => Some(s.value()),
                    None => None,
                },
            )
            &&& parsed_optional_id("task"@, opt_str_text(task_id)) == Some(
                match m.task_id {
                    Some(t) => Some(t.value()),
                    None => None,
                },
            )
            &&& rfc3339_instant(created_at@) == Some(m.created_at.unix_nanos)
            &&& m.root_snapshot_path@ == root_snapshot_path@
        },
{
    checkpoint_from_row(
        checkpoint_id,
        workspace_id,
        session_id,
        task_id,
        rfc3339_parse(created_at),
        root_snapshot_path,
    )
}

/// One entry of a directory listing, as the walk sees it: the bytes of its
/// path after canonicalisation (or as listed, where that fails) and whether
/// it is a directory. Paths are compared as the platform's bytes, with no
/// lossy text conversion, so two distinct paths never compare equal.
#[derive(Debug, Clone, PartialEq, Eq)]
pub struct DirEntryInfo {
    pub canonical_path: Vec<u8>,
    pub is_dir: bool,
}

/// What a recursive copy does with one listed entry.
#[derive(Debug, Clone, Copy, PartialEq, Eq, Structural)]
pub enum CopyStep {
    /// The entry is the excluded checkpoints root: neither copied nor entered.
    Skip,
    /// A directory: create it at the destination and copy into it.
    Descend,
    /// A file: copy it to the destination.
    CopyFile,
}

/// What clearing a directory does with one listed entry.
#[derive(Debug, Clone, Copy, PartialEq, Eq, Structural)]
pub enum ClearStep {
    /// The entry is the excluded checkpoints root: left in place.
    Keep,
    /// A directory: removed with everything in it.
    RemoveDir,
    /// A file: removed.
    RemoveFile,
}

/// The step a copy takes for an entry.
pub open spec fn copy_step_for(entry_path: Seq<u8>, is_dir: bool, exclude: Seq<u8>) -> CopyStep {
    if entry_path == exclude {
        CopyStep::Skip
    } else if is_dir {
        CopyStep::Descend
    } else {
        CopyStep::CopyFile
    }
}

/// The step a clear takes for an entry.
pub open spec fn clear_step_for(entry_path: Seq<u8>, is_dir: bool, exclude: Seq<u8>) -> ClearStep {
    if entry_path == exclude {
        ClearStep::Keep
    } else if is_dir {
        ClearStep::RemoveDir
    } else {
        ClearStep::RemoveFile
    }
}

/// Whether a walked entry is the excluded checkpoints root: both paths are
/// taken canonical, so a symlink alias of the root matches as well.
pub fn is_excluded(canonical_candidate: &[u8], canonical_exclude: &[u8]) -> (excluded: bool)
    ensures
        excluded == (canonical_candidate@ == canonical_exclude@),
{
    if canonical_candidate.len() != canonical_exclude.len() {
        return false;
    }
    let mut i: usize = 0;
    while i < canonical_candidate.len()
        invariant
            i <= canonical_candidate@.len(),
            canonical_candidate@.len() == canonical_exclude@.len(),
            forall|j: int| 0 <= j < i ==> canonical_candidate@[j] == canonical_exclude@[j],
        decreases canonical_candidate@.len() - i,
    {
        if canonical_candidate[i] != canonical_exclude[i] {
            return false;
        }
        i = i + 1;
    }
    assert(canonical_candidate@ =~= canonical_exclude@);
    true
}

/// The steps of a recursive copy over one directory listing, entry by entry.
pub fn copy_steps(entries: &Vec<DirEntryInfo>, canonical_exclude: &[u8]) -> (steps: Vec<CopyStep>)
    ensures
        steps.len() == entries.len(),
        forall|i: int|
            0 <= i < entries.len() ==> #[trigger] steps[i] == copy_step_for(
                entries[i].canonical_path@,
                entries[i].is_dir,
                canonical_exclude@,
            ),
{
    let mut steps: Vec<CopyStep> = Vec::new();
    let mut i: usize = 0;
    while i < entries.len()
        invariant
            i <= entries.len(),
            steps.len() == i,
            forall|j: int|
                0 <= j < i ==> #[trigger] steps[j] == copy_step_for(
                    entries[j].canonical_path@,
                    entries[j].is_dir,
                    canonical_exclude@,
                ),
        decreases entries.len() - i,
    {
        let entry = &entries[i];
        let step = if is_excluded(entry.canonical_path.as_slice(), canonical_exclude) {
            CopyStep::Skip
        } else if entry.is_dir {
            CopyStep::Descend
        } else {
            CopyStep::CopyFile
        };
        steps.push(step);
        i = i + 1;
    }
    steps
}

/// The steps of clearing one directory listing, entry by entry.
pub fn clear_steps(entries: &Vec<DirEntryInfo>, canonical_exclude: &[u8]) -> (steps: Vec<ClearStep>)
    ensures
        steps.len() == entries.len(),
        forall|i: int|
            0 <= i < entries.len() ==> #[trigger] steps[i] == clear_step_for(
                entries[i].canonical_path@,
                entries[i].is_dir,
                canonical_exclude@,
            ),
{
    let mut steps: Vec<ClearStep> = Vec::new();
    let mut i: usize = 0;
    while i < entries.len()
        invariant
            i <= entries.len(),
            steps.len() == i,
            forall|j: int|
                0 <= j < i ==> #[trigger] steps[j] == clear_step_for(
                    entries[j].canonical_path@,
                    entries[j].is_dir,
                    canonical_exclude@,
                ),
        decreases entries.len() - i,
    {
        let entry = &entries[i];
        let step = if is_excluded(entry.canonical_path.as_slice(), canonical_exclude) {
            ClearStep::Keep
        } else if entry.is_dir {
            ClearStep::RemoveDir
        } else {
            ClearStep::RemoveFile
        };
        steps.push(step);
        i = i + 1;
    }
    steps
}

/// A copy or a clear never enters, copies or removes the checkpoints root:
/// the one entry whose canonical path is the excluded root is skipped by a
/// copy and kept by a clear, and every other entry is handled.
pub proof fn lemma_checkpoints_root_is_never_walked(entry_path: Seq<u8>, is_dir: bool, exclude: Seq<u8>)
    ensures
        (copy_step_for(entry_path, is_dir, exclude) == CopyStep::Skip) <==> (entry_path == exclude),
        (clear_step_for(entry_path, is_dir, exclude) == ClearStep::Keep) <==> (entry_path == exclude),
        copy_step_for(entry_path, is_dir, exclude) == CopyStep::Descend ==> is_dir,
        clear_step_for(entry_path, is_dir, exclude) == ClearStep::RemoveDir ==> is_dir,
{
}

/// Why a restore of checkpoint `found` into `workspace_id` is refused, if
/// it is: no such checkpoint, another workspace's checkpoint, or snapshot
/// data missing on disk, checked in that order.
pub open spec fn restore_refusal(
    found: Option<CheckpointMetadata>,
    workspace_id: WorkspaceId,
    snapshot_exists: bool,
) -> Option<CheckpointError> {
    match found {
        None => Some(CheckpointError::NotFound),
        Some(m) => if m.workspace_id != workspace_id {
            Some(CheckpointError::WorkspaceMismatch)
        } else if !snapshot_exists {
            Some(CheckpointError::SnapshotMissing)
        } else {
            None
        },
    }
}

/// Decides whether the looked-up checkpoint may be restored into the
/// workspace `workspace_id`; `snapshot_exists` says whether its snapshot
/// directory is on disk. A restore never silently does nothing: every
/// refusal is an error.
pub fn check_restore(
    found: &Option<CheckpointMetadata>,
    workspace_id: WorkspaceId,
    snapshot_exists: bool,
) -> (r: Result<(), CheckpointError>)
    ensures
        r is Ok <==> restore_refusal(*found, workspace_id, snapshot_exists) is None,
        r is Err ==> Some(r->Err_0) == restore_refusal(*found, workspace_id, snapshot_exists),
{
    match found {
        None => Err(CheckpointError::NotFound),
        Some(m) => {
            if m.workspace_id != workspace_id {
                Err(CheckpointError::WorkspaceMismatch)
            } else if !snapshot_exists {
                Err(CheckpointError::SnapshotMissing)
            } else {
                Ok(())
            }
        },
    }
}

/// Decides whether a delete of the looked-up checkpoint goes ahead: only a
/// checkpoint that exists is deleted, and only that one.
pub fn check_delete(found: &Option<CheckpointMetadata>) -> (r: Result<CheckpointId, CheckpointError>)
    ensures
        r is Ok <==> *found is Some,
        r is Ok ==> r->Ok_0 == found->Some_0.checkpoint_id,
        r is Err ==> r->Err_0 == CheckpointError::NotFound,
{
    match found {
        None => Err(CheckpointError::NotFound),
        Some(m) => Ok(m.checkpoint_id),
    }
}

} // verus!
