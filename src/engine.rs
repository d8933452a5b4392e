//! The per-item removal state machine. Each function takes what was observed
//! (guards, the result of a move, an answer) and names the next action; the
//! caller performs it and reports back.
use vstd::prelude::*;
use vstd::string::*;

use crate::error::RoxError;
use crate::guards::{crosses_devices, is_root_path, is_root_spec};

verus! {

/// Why an item can only be deleted permanently, after confirmation.
#[derive(Debug, Clone, Copy, PartialEq, Eq, Structural)]
pub enum Fallback {
    /// Running with superuser privileges: no trash directory is owned.
    Privileged,
    /// The item lies on another device than the trash directory.
    CrossesDevices,
    /// The move into the trash failed for a reason other than permissions.
    MoveFailed,
}

/// What the guard checks leave for an item.
#[derive(Debug, Clone, PartialEq, Eq)]
pub enum Plan {
    Abort(RoxError),
    ConfirmPermanentDelete(Fallback),
    /// An identical copy is already in the trash: delete without asking.
    DeleteDuplicate,
    MoveToTrash,
}

/// What was observed about an item and the trash before acting.
#[derive(Debug, Clone, Copy)]
pub struct ItemFacts {
    pub privileged: bool,
    pub item_device: u64,
    pub trash_device: u64,
    /// Content comparison is enabled by configuration.
    pub dedup_enabled: bool,
    /// The item is a file whose same-named trash entry has equal content.
    pub identical_in_trash: bool,
}

/// How the move into the trash went.
#[derive(Debug, Clone, Copy, PartialEq, Eq, Structural)]
pub enum MoveResult {
    Moved,
    PermissionDenied,
    OtherError,
}

/// What follows a move.
#[derive(Debug, Clone, PartialEq, Eq)]
pub enum AfterMove {
    /// Moved; append a history record.
    Record,
    /// Moved; part of a pattern batch, which is kept out of the history.
    Done,
    /// Left untouched, with this report.
    Report(RoxError),
    ConfirmPermanentDelete(Fallback),
}

/// How removing an empty directory went.
#[derive(Debug, Clone, Copy, PartialEq, Eq, Structural)]
pub enum DirRemoval {
    Removed,
    NotEmpty,
    OtherError,
}

pub open spec fn aborts_as_root(r: Plan, path: Seq<char>) -> bool {
    r matches Plan::Abort(RoxError::IsRoot(p)) && p@ == path
}

/// The guard stage: the root guard first, then privileges, then devices,
/// then the duplicate check; otherwise the item is moved to the trash.
pub fn plan_removal(path: &str, facts: &ItemFacts) -> (r: Plan)
    ensures
        is_root_spec(path@) ==> aborts_as_root(r, path@),
        is_root_spec(path@) ==> r != Plan::MoveToTrash && r != Plan::DeleteDuplicate && !(r is ConfirmPermanentDelete),
        !is_root_spec(path@) && facts.privileged ==> r == Plan::ConfirmPermanentDelete(
            Fallback::Privileged,
        ),
        !is_root_spec(path@) && !facts.privileged && facts.item_device != facts.trash_device
            ==> r == Plan::ConfirmPermanentDelete(Fallback::CrossesDevices),
        !is_root_spec(path@) && !facts.privileged && facts.item_device == facts.trash_device
            ==> r == (if facts.dedup_enabled && facts.identical_in_trash {
            Plan::DeleteDuplicate
        } else {
            Plan::MoveToTrash
        }),
{
    if is_root_path(path) {
        Plan::Abort(RoxError::IsRoot(String::from_str(path)))
    } else if facts.privileged {
        Plan::ConfirmPermanentDelete(Fallback::Privileged)
    } else if crosses_devices(facts.item_device, facts.trash_device) {
        Plan::ConfirmPermanentDelete(Fallback::CrossesDevices)
    } else if facts.dedup_enabled && facts.identical_in_trash {
        Plan::DeleteDuplicate
    } else {
        Plan::MoveToTrash
    }
}

/// The stage after the move: record it unless it belongs to a pattern
/// batch; a permission error leaves the item alone; any other error falls
/// back to a confirmed permanent delete.
pub fn after_move(path: &str, result: MoveResult, pattern_batch: bool) -> (r: AfterMove)
    ensures
        result == MoveResult::Moved ==> r == (if pattern_batch {
            AfterMove::Done
        } else {
            AfterMove::Record
        }),
        result == MoveResult::PermissionDenied ==> (r matches AfterMove::Report(
            RoxError::PermissionDenied(p),
        ) && p@ == path@),
        result == MoveResult::OtherError ==> r == AfterMove::ConfirmPermanentDelete(
            Fallback::MoveFailed,
        ),
{
    match result {
        MoveResult::Moved => {
            if pattern_batch {
                AfterMove::Done
            } else {
                AfterMove::Record
            }
        },
        MoveResult::PermissionDenied => AfterMove::Report(
            RoxError::PermissionDenied(String::from_str(path)),
        ),
        MoveResult::OtherError => AfterMove::ConfirmPermanentDelete(Fallback::MoveFailed),
    }
}

/// Before removing an empty directory: it must exist and be a directory.
pub fn empty_dir_precheck(path: &str, exists: bool, is_dir: bool) -> (r: Result<(), RoxError>)
    ensures
        exists && is_dir ==> r is Ok,
        !exists ==> (r matches Err(RoxError::NoSuchFile(p)) && p@ == path@),
        exists && !is_dir ==> (r matches Err(RoxError::NotADirectory(p)) && p@ == path@),
{
    if !exists {
        Err(RoxError::NoSuchFile(String::from_str(path)))
    } else if !is_dir {
        Err(RoxError::NotADirectory(String::from_str(path)))
    } else {
        Ok(())
    }
}

/// The report of an attempted empty-directory removal; it never falls back
/// to the trash or to a permanent delete.
pub fn empty_dir_result(path: &str, result: DirRemoval) -> (r: Result<(), RoxError>)
    ensures
        result == DirRemoval::Removed ==> r is Ok,
        result == DirRemoval::NotEmpty ==> (r matches Err(RoxError::DirectoryNotEmpty(p)) && p@
            == path@),
        result == DirRemoval::OtherError ==> (r matches Err(RoxError::IoError(p)) && p@
            == path@),
{
    match result {
        DirRemoval::Removed => Ok(()),
        DirRemoval::NotEmpty => Err(RoxError::DirectoryNotEmpty(String::from_str(path))),
        DirRemoval::OtherError => Err(RoxError::IoError(String::from_str(path))),
    }
}

} // verus!
