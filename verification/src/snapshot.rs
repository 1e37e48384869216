//! The snapshot: what is saved before the command runs, and the three ways
//! to dispose of it afterwards.

use vstd::prelude::*;
use crate::delta::{
    changed_paths, changed_paths_nul_free, changed_paths_of, deleted_paths, deleted_paths_of,
    delta_seq, touched_paths, touched_paths_of, FileDeltaView,
};
use crate::error::{Cause, FailureKind, GitFailure, WorkflowError};
use crate::git::{
    bytes_outcome, deltas_outcome, no_request_since, parse_patch, patch_parses, paths_outcome,
    Call, GitRepository, HeadFailure, ParsedPatch, STASH_REFERENCE,
};
use crate::host::{answers_all, HostReply, HostRequest};
use crate::merge::{files_deleted, status_restored, status_saved, MergeStatus};
use crate::paths::{all_nul_free, bytes_of, common_paths, copy_bytes, nul_free, path_seq};
use crate::stash::{find_stash_index, is_first_at};

verus! {

/// The message of the stash that holds the backup.
pub const BACKUP_MESSAGE: &'static str = "offstage backup";

/// The name that the backup stash is signed with.
pub const STASHER_NAME: &'static str = "Dummy";

/// The address that the backup stash is signed with.
pub const STASHER_EMAIL: &'static str = "dummy@example.com";

/// A saved copy of working directory and index: the id of the stash that
/// holds it, and the merge state as it was just before the stash was made.
#[derive(Debug)]
pub struct StashRecord {
    pub stash_id: Vec<u8>,
    pub merge_status: MergeStatus,
}

/// What `save_snapshot` recorded. It is disposed of once: applied or
/// restored, and then cleaned.
#[derive(Debug)]
pub struct Snapshot {
    /// The staged files that the command is run on.
    pub staged_files: Vec<Vec<u8>>,
    /// The backup, where there was anything to back up.
    pub backup_stash: Option<StashRecord>,
    /// The changes that are not staged in files that are partly staged, as
    /// a patch from the index to the working directory.
    pub unstaged_diff: Option<Vec<u8>>,
}

/// The tree that the index is compared with: the tree of HEAD's commit, or
/// nothing where HEAD names a branch without a commit. Any other failure to
/// get at the tree is a failure.
pub open spec fn tree_of(head: Result<Seq<u8>, HeadFailure>) -> Result<Option<Seq<u8>>, GitFailure> {
    match head {
        Ok(tree) => Ok(Some(tree)),
        Err(HeadFailure::NoHead(failure)) => if failure.kind == FailureKind::UnbornBranch {
            Ok(None)
        } else {
            Err(failure)
        },
        Err(HeadFailure::NoTree(failure)) => Err(failure),
    }
}

/// The staged paths of a diff that was computed, or its failure.
pub open spec fn changed_of(deltas: Result<Seq<FileDeltaView>, GitFailure>) -> Result<
    Seq<Seq<u8>>,
    GitFailure,
> {
    match deltas {
        Ok(found) => Ok(changed_paths_of(found)),
        Err(failure) => Err(failure),
    }
}

/// The deleted paths of a diff that was computed, or its failure.
pub open spec fn deleted_of(deltas: Result<Seq<FileDeltaView>, GitFailure>) -> Result<
    Seq<Seq<u8>>,
    GitFailure,
> {
    match deltas {
        Ok(found) => Ok(deleted_paths_of(found)),
        Err(failure) => Err(failure),
    }
}

/// What `get_staged_files` does: it asks for HEAD's tree and, unless that
/// fails, compares the tree with the index; `staged` is the staged paths of
/// that diff, or the failure that ended it.
pub open spec fn staged_listed(
    before: Seq<Call>,
    after: Seq<Call>,
    staged: Result<Seq<Seq<u8>>, GitFailure>,
) -> bool {
    exists|head: Result<Seq<u8>, HeadFailure>|
        #![trigger tree_of(head)]
        match tree_of(head) {
            Err(failure) => after == before.push(Call::HeadTree(head)) && staged == Err::<
                Seq<Seq<u8>>,
                GitFailure,
            >(failure),
            Ok(tree) => exists|deltas: Result<Seq<FileDeltaView>, GitFailure>|
                #![trigger changed_of(deltas)]
                after == before.push(Call::HeadTree(head)).push(
                    Call::DiffTreeToIndex(tree, deltas),
                ) && staged == changed_of(deltas),
        }
}

/// Listing the staged files asks nothing of the host.
pub proof fn only_calls_listed(
    before: Seq<Call>,
    after: Seq<Call>,
    staged: Result<Seq<Seq<u8>>, GitFailure>,
)
    requires
        staged_listed(before, after, staged),
    ensures
        no_request_since(before, after),
{
}

/// The staged files that a diff between index and working directory names
/// too, each once and in no stated order; or the failure of that diff.
pub open spec fn common_of(
    staged: Seq<Seq<u8>>,
    deltas: Result<Seq<FileDeltaView>, GitFailure>,
    include_from_files: bool,
    partly: Result<Seq<Seq<u8>>, GitFailure>,
) -> bool {
    match deltas {
        Err(failure) => partly == Err::<Seq<Seq<u8>>, GitFailure>(failure),
        Ok(found) => match partly {
            Ok(both) => both.no_duplicates() && both.to_set() == staged.to_set().intersect(
                touched_paths_of(found, include_from_files).to_set(),
            ),
            Err(_) => false,
        },
    }
}

/// What `get_partially_staged_files` does: it lists the staged files and,
/// unless that fails, compares the index with the working directory, binary
/// changes shown; `partly` holds, each once, the staged paths that this diff
/// names too.
pub open spec fn partly_listed(
    before: Seq<Call>,
    after: Seq<Call>,
    include_from_files: bool,
    partly: Result<Seq<Seq<u8>>, GitFailure>,
) -> bool {
    exists|mid: Seq<Call>, staged: Result<Seq<Seq<u8>>, GitFailure>|
        #![trigger staged_listed(before, mid, staged)]
        {
            &&& staged_listed(before, mid, staged)
            &&& match staged {
                Err(failure) => after == mid && partly == staged,
                Ok(files) => exists|deltas: Result<Seq<FileDeltaView>, GitFailure>|
                    #![trigger common_of(files, deltas, include_from_files, partly)]
                    after == mid.push(Call::DiffIndexToWorkdir(true, deltas)) && common_of(
                        files,
                        deltas,
                        include_from_files,
                        partly,
                    ),
            }
        }
}

/// What `get_deleted_files` does: it compares the index with the working
/// directory; `deleted` is the deleted paths of that diff, or its failure.
pub open spec fn deleted_listed(
    before: Seq<Call>,
    after: Seq<Call>,
    deleted: Result<Seq<Seq<u8>>, GitFailure>,
) -> bool {
    exists|deltas: Result<Seq<FileDeltaView>, GitFailure>|
        #![trigger deleted_of(deltas)]
        after == before.push(Call::DiffIndexToWorkdir(false, deltas)) && deleted == deleted_of(
            deltas,
        )
}

/// What a search of the stash list came to: the first place that holds the
/// id, nothing where no place holds it, or the failure to read the list.
pub open spec fn place_of(ids: Result<Seq<Seq<u8>>, GitFailure>, id: Seq<u8>, found: Result<
    Option<usize>,
    GitFailure,
>) -> bool {
    match ids {
        Err(failure) => found == Err::<Option<usize>, GitFailure>(failure),
        Ok(list) => match found {
            Ok(Some(index)) => is_first_at(list, id, index as int),
            Ok(None) => !list.contains(id),
            Err(_) => false,
        },
    }
}

/// What `get_stash_index_from_id` does: it reads the stash list; `found` is
/// the first place in it that holds the id.
pub open spec fn index_found(
    before: Seq<Call>,
    after: Seq<Call>,
    id: Seq<u8>,
    found: Result<Option<usize>, GitFailure>,
) -> bool {
    exists|ids: Result<Seq<Seq<u8>>, GitFailure>|
        #![trigger place_of(ids, id, found)]
        after == before.push(Call::StashIds(STASH_REFERENCE@, ids)) && place_of(ids, id, found)
}

/// A failure of the repository as the cause of a step's failure.
pub open spec fn git_cause(outcome: Result<(), GitFailure>) -> Result<(), Cause> {
    match outcome {
        Ok(()) => Ok(()),
        Err(failure) => Err(Cause::Git(failure)),
    }
}

/// What `apply_stash` does: it looks the stash up by its id and applies the
/// stash at the place found. A stash that is not in the list is not applied
/// and reported as missing.
pub open spec fn stash_applied(
    before: Seq<Call>,
    after: Seq<Call>,
    id: Seq<u8>,
    applied: Result<(), Cause>,
) -> bool {
    exists|mid: Seq<Call>, found: Result<Option<usize>, GitFailure>|
        #![trigger index_found(before, mid, id, found)]
        {
            &&& index_found(before, mid, id, found)
            &&& match found {
                Err(failure) => after == mid && applied == Err::<(), Cause>(Cause::Git(failure)),
                Ok(None) => after == mid && (applied matches Err(Cause::StashMissing(missing))
                    && missing@ == id),
                Ok(Some(index)) => exists|outcome: Result<(), GitFailure>|
                    #![trigger git_cause(outcome)]
                    after == mid.push(Call::StashApply(index, outcome)) && applied == git_cause(
                        outcome,
                    ),
            }
        }
}

/// The patch of the changes that are not staged, as contracts see it.
pub open spec fn patch_outcome(outcome: Result<Option<Vec<u8>>, GitFailure>) -> Result<
    Option<Seq<u8>>,
    GitFailure,
> {
    match outcome {
        Ok(Some(patch)) => Ok(Some(patch@)),
        Ok(None) => Ok(None),
        Err(failure) => Err(failure),
    }
}

/// The patch that was printed, or the failure to print it.
pub open spec fn printed_of(outcome: Result<Seq<u8>, GitFailure>) -> Result<
    Option<Seq<u8>>,
    GitFailure,
> {
    match outcome {
        Ok(patch) => Ok(Some(patch)),
        Err(failure) => Err(failure),
    }
}

/// What `save_unstaged_diff` does: it lists the files that are partly
/// staged, old sides included, and, where there is one, prints the changes
/// of these files between index and working directory as a patch.
pub open spec fn unstaged_saved(
    before: Seq<Call>,
    after: Seq<Call>,
    saved: Result<Option<Seq<u8>>, GitFailure>,
) -> bool {
    exists|mid: Seq<Call>, partly: Result<Seq<Seq<u8>>, GitFailure>|
        #![trigger partly_listed(before, mid, true, partly)]
        {
            &&& partly_listed(before, mid, true, partly)
            &&& match partly {
                Err(failure) => after == mid && saved == Err::<Option<Seq<u8>>, GitFailure>(
                    failure,
                ),
                Ok(files) => if files.len() == 0 {
                    after == mid && saved == Ok::<Option<Seq<u8>>, GitFailure>(None)
                } else {
                    exists|printed: Result<Seq<u8>, GitFailure>|
                        #![trigger printed_of(printed)]
                        after == mid.push(Call::PrintIndexToWorkdir(files, true, printed)) && saved
                            == printed_of(printed)
                },
            }
        }
}

/// What `hide_partially_staged_changes` does: it lists the files that are
/// partly staged by their new sides and, where there is one, checks these
/// files out of the index.
pub open spec fn partly_hidden(
    before: Seq<Call>,
    after: Seq<Call>,
    hidden: Result<(), GitFailure>,
) -> bool {
    exists|mid: Seq<Call>, partly: Result<Seq<Seq<u8>>, GitFailure>|
        #![trigger partly_listed(before, mid, false, partly)]
        {
            &&& partly_listed(before, mid, false, partly)
            &&& match partly {
                Err(failure) => after == mid && hidden == Err::<(), GitFailure>(failure),
                Ok(files) => if files.len() == 0 {
                    after == mid && hidden == Ok::<(), GitFailure>(())
                } else {
                    after == mid.push(Call::CheckoutIndex(files, false, hidden))
                },
            }
        }
}

/// What `merge_modifications` makes of the attempt to apply the patch: a
/// patch that does not apply is a conflict.
pub open spec fn merge_of(outcome: Result<(), GitFailure>) -> Result<(), WorkflowError> {
    match outcome {
        Ok(()) => Ok(()),
        Err(failure) => Err(WorkflowError::UnstagedConflict(failure)),
    }
}

/// The id of the backup stash, where there is one.
pub open spec fn backup_id(backup: Option<StashRecord>) -> Option<Seq<u8>> {
    match backup {
        Some(record) => Some(record.stash_id@),
        None => None,
    }
}

/// The clean-up failed for this cause, and the error names the stash.
pub open spec fn clean_failed(cleaned: Result<(), WorkflowError>, id: Seq<u8>, cause: Cause) -> bool {
    cleaned matches Err(WorkflowError::Clean { stash_id, cause: why }) && stash_id@ == id && why
        == cause
}

/// What the attempt to drop the stash means for the clean-up.
pub open spec fn drop_of(cleaned: Result<(), WorkflowError>, id: Seq<u8>, outcome: Result<
    (),
    GitFailure,
>) -> bool {
    match outcome {
        Ok(()) => cleaned == Ok::<(), WorkflowError>(()),
        Err(failure) => clean_failed(cleaned, id, Cause::Git(failure)),
    }
}

/// What `clean_snapshot` does: without a backup, nothing. With one, it
/// looks the stash up by its id and drops the stash at the place found; a
/// stash that is not in the list is reported as missing.
pub open spec fn backup_dropped(
    before: Seq<Call>,
    after: Seq<Call>,
    backup: Option<Seq<u8>>,
    cleaned: Result<(), WorkflowError>,
) -> bool {
    match backup {
        None => after == before && cleaned == Ok::<(), WorkflowError>(()),
        Some(id) => exists|mid: Seq<Call>, found: Result<Option<usize>, GitFailure>|
            #![trigger index_found(before, mid, id, found)]
            {
                &&& index_found(before, mid, id, found)
                &&& match found {
                    Err(failure) => after == mid && clean_failed(cleaned, id, Cause::Git(failure)),
                    Ok(None) => after == mid && (cleaned matches Err(
                        WorkflowError::Clean { stash_id, cause: Cause::StashMissing(missing) },
                    ) && stash_id@ == id && missing@ == id),
                    Ok(Some(index)) => exists|outcome: Result<(), GitFailure>|
                        #![trigger drop_of(cleaned, id, outcome)]
                        after == mid.push(Call::StashDrop(index, outcome)) && drop_of(
                            cleaned,
                            id,
                            outcome,
                        ),
                }
            }
    }
}

/// The apply failed because the repository did.
pub open spec fn apply_failed(applied: Result<(), WorkflowError>, failure: GitFailure) -> bool {
    applied == Err::<(), WorkflowError>(WorkflowError::Apply(Cause::Git(failure)))
}

/// What becomes of the saved patch: without one, nothing. One that does
/// not parse fails the apply and is not applied. One that parses is applied
/// to the working directory, and a failure there is a conflict.
pub open spec fn patch_merged(
    before: Seq<Call>,
    after: Seq<Call>,
    unstaged_diff: Option<Vec<u8>>,
    applied: Result<(), WorkflowError>,
) -> bool {
    match unstaged_diff {
        None => after == before && applied == Ok::<(), WorkflowError>(()),
        Some(raw) => if patch_parses(raw@) {
            exists|outcome: Result<(), GitFailure>|
                #![trigger merge_of(outcome)]
                after == before.push(Call::ApplyToWorkdir(raw@, outcome)) && applied == merge_of(
                    outcome,
                )
        } else {
            after == before && (applied matches Err(WorkflowError::Apply(Cause::Git(_))))
        },
    }
}

/// What follows the staging in `apply_modifications`: the staged files are
/// listed again; where none is left the commit would be empty; else the
/// saved patch is merged.
pub open spec fn checked_and_merged(
    before: Seq<Call>,
    after: Seq<Call>,
    unstaged_diff: Option<Vec<u8>>,
    applied: Result<(), WorkflowError>,
) -> bool {
    exists|mid: Seq<Call>, staged: Result<Seq<Seq<u8>>, GitFailure>|
        #![trigger staged_listed(before, mid, staged)]
        {
            &&& staged_listed(before, mid, staged)
            &&& match staged {
                Err(failure) => after == mid && apply_failed(applied, failure),
                Ok(files) => if files.len() == 0 {
                    after == mid && applied == Err::<(), WorkflowError>(WorkflowError::EmptyCommit)
                } else {
                    patch_merged(mid, after, unstaged_diff, applied)
                },
            }
        }
}

/// What `apply_modifications` does: it adds the snapshot's staged files to
/// the index as the command left them, then checks and merges.
pub open spec fn modifications_applied(
    before: Seq<Call>,
    after: Seq<Call>,
    snapshot: Snapshot,
    applied: Result<(), WorkflowError>,
) -> bool {
    exists|added: Result<(), GitFailure>|
        #![trigger git_cause(added)]
        match added {
            Err(failure) => after == before.push(
                Call::AddAll(path_seq(snapshot.staged_files@), added),
            ) && apply_failed(applied, failure),
            Ok(()) => checked_and_merged(
                before.push(Call::AddAll(path_seq(snapshot.staged_files@), added)),
                after,
                snapshot.unstaged_diff,
                applied,
            ),
        }
}

/// Where the files were added and the diff that follows names no path, the
/// apply fails with the empty-commit error and makes no further call,
/// whatever the saved patch holds. The diff is the third call of the apply:
/// after the add and the question for HEAD's tree.
pub proof fn nothing_staged_is_refused(
    before: Seq<Call>,
    after: Seq<Call>,
    snapshot: Snapshot,
    applied: Result<(), WorkflowError>,
    tree: Option<Seq<u8>>,
    deltas: Seq<FileDeltaView>,
)
    requires
        modifications_applied(before, after, snapshot, applied),
        after.len() >= before.len() + 3,
        after[before.len() as int + 2] == Call::DiffTreeToIndex(tree, Ok(deltas)),
        changed_paths_of(deltas).len() == 0,
    ensures
        applied == Err::<(), WorkflowError>(WorkflowError::EmptyCommit),
        after.len() == before.len() + 3,
{
}

/// The restore failed for this cause, and the error names the backup.
pub open spec fn restore_failed(
    restored: Result<(), WorkflowError>,
    backup: Option<Seq<u8>>,
    cause: Cause,
) -> bool {
    restored matches Err(WorkflowError::Restore { backup: named, cause: why }) && bytes_of(named)
        == backup && why == cause
}

/// What the writing back of the merge files means for the restore.
pub open spec fn restored_of(
    restored: Result<(), WorkflowError>,
    backup: Option<Seq<u8>>,
    written: Result<(), Cause>,
) -> bool {
    match written {
        Ok(()) => restored == Ok::<(), WorkflowError>(()),
        Err(cause) => restore_failed(restored, backup, cause),
    }
}

/// What follows the hard reset in `restore_snapshot`: without a backup,
/// nothing. With one, its stash is applied and, unless that fails, the
/// merge files of the backup are written back.
pub open spec fn backup_applied<H: Fn(HostRequest) -> HostReply>(
    host: H,
    before: Seq<Call>,
    after: Seq<Call>,
    backup: Option<StashRecord>,
    restored: Result<(), WorkflowError>,
) -> bool {
    match backup {
        None => after == before && restored == Ok::<(), WorkflowError>(()),
        Some(record) => exists|mid: Seq<Call>, applied: Result<(), Cause>|
            #![trigger stash_applied(before, mid, record.stash_id@, applied)]
            {
                &&& stash_applied(before, mid, record.stash_id@, applied)
                &&& match applied {
                    Err(cause) => after == mid && restore_failed(
                        restored,
                        backup_id(backup),
                        cause,
                    ),
                    Ok(()) => exists|written: Result<(), Cause>|
                        #![trigger status_restored(host, mid, after, record.merge_status, written)]
                        status_restored(host, mid, after, record.merge_status, written)
                            && restored_of(restored, backup_id(backup), written),
                }
            }
    }
}

/// What `restore_snapshot` does: it resets index and working directory to
/// HEAD and, unless that fails, applies the backup.
pub open spec fn snapshot_restored<H: Fn(HostRequest) -> HostReply>(
    host: H,
    before: Seq<Call>,
    after: Seq<Call>,
    backup: Option<StashRecord>,
    restored: Result<(), WorkflowError>,
) -> bool {
    exists|reset: Result<(), GitFailure>|
        #![trigger git_cause(reset)]
        match reset {
            Err(failure) => after == before.push(Call::ResetHard(reset)) && restore_failed(
                restored,
                backup_id(backup),
                Cause::Git(failure),
            ),
            Ok(()) => backup_applied(
                host,
                before.push(Call::ResetHard(reset)),
                after,
                backup,
                restored,
            ),
        }
}

/// The capture failed for this cause after the stash was made, and the
/// error names the stash.
pub open spec fn capture_dirty(
    saved: Result<Option<StashRecord>, WorkflowError>,
    id: Seq<u8>,
    cause: Cause,
) -> bool {
    saved matches Err(WorkflowError::CaptureDirty { stash_id, cause: why }) && stash_id@ == id
        && why == cause
}

/// What the writing back of the merge files means for the backup: the
/// record of the stash, with the merge status that was read, or the failure.
pub open spec fn record_of(
    saved: Result<Option<StashRecord>, WorkflowError>,
    id: Seq<u8>,
    status: MergeStatus,
    written: Result<(), Cause>,
) -> bool {
    match written {
        Ok(()) => saved matches Ok(Some(record)) && record.stash_id@ == id && record.merge_status
            == status,
        Err(cause) => capture_dirty(saved, id, cause),
    }
}

/// What follows the making of the stash: the stash is applied again and,
/// unless that fails, the merge files are written back as they were read.
pub open spec fn stash_reapplied<H: Fn(HostRequest) -> HostReply>(
    host: H,
    before: Seq<Call>,
    after: Seq<Call>,
    id: Seq<u8>,
    status: MergeStatus,
    saved: Result<Option<StashRecord>, WorkflowError>,
) -> bool {
    exists|mid: Seq<Call>, applied: Result<(), Cause>|
        #![trigger stash_applied(before, mid, id, applied)]
        {
            &&& stash_applied(before, mid, id, applied)
            &&& match applied {
                Err(cause) => after == mid && capture_dirty(saved, id, cause),
                Ok(()) => exists|written: Result<(), Cause>|
                    #![trigger status_restored(host, mid, after, status, written)]
                    status_restored(host, mid, after, status, written) && record_of(
                        saved,
                        id,
                        status,
                        written,
                    ),
            }
        }
}

/// What the attempt to make the stash means where it made none: with
/// nothing to stash there is no backup and no error; any other failure
/// fails the capture.
pub open spec fn unmade_of(failure: GitFailure) -> Result<Option<StashRecord>, WorkflowError> {
    if failure.kind == FailureKind::NotFound {
        Ok(None)
    } else {
        Err(WorkflowError::Capture(Cause::Git(failure)))
    }
}

/// The id of the stash that was made, where one was made.
pub open spec fn made_id(made: Result<Seq<u8>, GitFailure>) -> Option<Seq<u8>> {
    match made {
        Ok(id) => Some(id),
        Err(_) => None,
    }
}

/// What follows the reading of the merge state: the stash is made, with the
/// backup's signature and message, and applied again.
pub open spec fn stash_made<H: Fn(HostRequest) -> HostReply>(
    host: H,
    before: Seq<Call>,
    after: Seq<Call>,
    status: MergeStatus,
    saved: Result<Option<StashRecord>, WorkflowError>,
) -> bool {
    exists|made: Result<Seq<u8>, GitFailure>|
        #![trigger made_id(made)]
        match made {
            Err(failure) => after == before.push(
                Call::StashSave(STASHER_NAME@, STASHER_EMAIL@, BACKUP_MESSAGE@, made),
            ) && saved == unmade_of(failure),
            Ok(id) => stash_reapplied(
                host,
                before.push(Call::StashSave(STASHER_NAME@, STASHER_EMAIL@, BACKUP_MESSAGE@, made)),
                after,
                id,
                status,
                saved,
            ),
        }
}

/// What follows the finding that the repository has a commit: the merge
/// state is read, and only then the stash is made.
pub open spec fn read_and_stashed<H: Fn(HostRequest) -> HostReply>(
    host: H,
    before: Seq<Call>,
    after: Seq<Call>,
    saved: Result<Option<StashRecord>, WorkflowError>,
) -> bool {
    exists|mid: Seq<Call>, read: Result<MergeStatus, Cause>|
        #![trigger status_saved(host, before, mid, read)]
        {
            &&& status_saved(host, before, mid, read)
            &&& match read {
                Err(cause) => after == mid && saved == Err::<Option<StashRecord>, WorkflowError>(
                    WorkflowError::Capture(cause),
                ),
                Ok(status) => stash_made(host, mid, after, status, saved),
            }
        }
}

/// The answer to the question whether the repository has no commit.
pub open spec fn has_commit(empty: Result<bool, GitFailure>) -> bool {
    empty == Ok::<bool, GitFailure>(false)
}

/// What `save_snapshot_stash` does: it asks whether the repository has a
/// commit. Without one there is no backup and nothing else is done. With
/// one, the merge state is read, the stash is made and applied again, and
/// the merge state is written back.
pub open spec fn backup_saved<H: Fn(HostRequest) -> HostReply>(
    host: H,
    before: Seq<Call>,
    after: Seq<Call>,
    saved: Result<Option<StashRecord>, WorkflowError>,
) -> bool {
    exists|empty: Result<bool, GitFailure>|
        #![trigger has_commit(empty)]
        match empty {
            Err(failure) => after == before.push(Call::IsEmpty(empty)) && saved == Err::<
                Option<StashRecord>,
                WorkflowError,
            >(WorkflowError::Capture(Cause::Git(failure))),
            Ok(true) => after == before.push(Call::IsEmpty(empty)) && saved == Ok::<
                Option<StashRecord>,
                WorkflowError,
            >(None),
            Ok(false) => read_and_stashed(host, before.push(Call::IsEmpty(empty)), after, saved),
        }
}

/// The capture failed for this cause: after the stash was made where there
/// is a backup, before anything was touched where there is none.
pub open spec fn capture_failed(
    saved: Result<Snapshot, WorkflowError>,
    backup: Option<StashRecord>,
    cause: Cause,
) -> bool {
    match backup {
        Some(record) => saved matches Err(WorkflowError::CaptureDirty { stash_id, cause: why })
            && stash_id@ == record.stash_id@ && why == cause,
        None => saved == Err::<Snapshot, WorkflowError>(WorkflowError::Capture(cause)),
    }
}

/// The last step of the capture: the files that are partly staged get
/// their staged content, and the snapshot is the result.
pub open spec fn hidden_and_done(
    before: Seq<Call>,
    after: Seq<Call>,
    staged_files: Vec<Vec<u8>>,
    patch: Option<Seq<u8>>,
    backup: Option<StashRecord>,
    saved: Result<Snapshot, WorkflowError>,
) -> bool {
    exists|hidden: Result<(), GitFailure>|
        #![trigger partly_hidden(before, after, hidden)]
        {
            &&& partly_hidden(before, after, hidden)
            &&& match hidden {
                Err(failure) => capture_failed(saved, backup, Cause::Git(failure)),
                Ok(()) => saved matches Ok(snapshot) && snapshot.staged_files == staged_files
                    && snapshot.backup_stash == backup && patch_outcome(
                    Ok(snapshot.unstaged_diff),
                ) == Ok::<Option<Seq<u8>>, GitFailure>(patch),
            }
        }
}

/// The capture from the removals on: the files that were deleted are
/// deleted again, and only then the partly staged files are hidden.
pub open spec fn removed_and_done<H: Fn(HostRequest) -> HostReply>(
    host: H,
    before: Seq<Call>,
    after: Seq<Call>,
    staged_files: Vec<Vec<u8>>,
    deleted: Seq<Seq<u8>>,
    patch: Option<Seq<u8>>,
    backup: Option<StashRecord>,
    saved: Result<Snapshot, WorkflowError>,
) -> bool {
    exists|mid: Seq<Call>, removal: Result<(), Cause>|
        #![trigger files_deleted(host, before, mid, deleted, removal)]
        {
            &&& files_deleted(host, before, mid, deleted, removal)
            &&& match removal {
                Err(cause) => after == mid && capture_failed(saved, backup, cause),
                Ok(()) => hidden_and_done(mid, after, staged_files, patch, backup, saved),
            }
        }
}

/// The capture from the backup on: the backup is saved, and the rest
/// follows.
pub open spec fn backed_up_and_done<H: Fn(HostRequest) -> HostReply>(
    host: H,
    before: Seq<Call>,
    after: Seq<Call>,
    staged_files: Vec<Vec<u8>>,
    deleted: Seq<Seq<u8>>,
    patch: Option<Seq<u8>>,
    saved: Result<Snapshot, WorkflowError>,
) -> bool {
    exists|mid: Seq<Call>, backup: Result<Option<StashRecord>, WorkflowError>|
        #![trigger backup_saved(host, before, mid, backup)]
        {
            &&& backup_saved(host, before, mid, backup)
            &&& match backup {
                Err(error) => after == mid && saved == Err::<Snapshot, WorkflowError>(error),
                Ok(record) => removed_and_done(
                    host,
                    mid,
                    after,
                    staged_files,
                    deleted,
                    patch,
                    record,
                    saved,
                ),
            }
        }
}

/// The capture from the patch on: the patch of the changes that are not
/// staged is made, and the rest follows.
pub open spec fn diffed_and_done<H: Fn(HostRequest) -> HostReply>(
    host: H,
    before: Seq<Call>,
    after: Seq<Call>,
    staged_files: Vec<Vec<u8>>,
    deleted: Seq<Seq<u8>>,
    saved: Result<Snapshot, WorkflowError>,
) -> bool {
    exists|mid: Seq<Call>, diff: Result<Option<Seq<u8>>, GitFailure>|
        #![trigger unstaged_saved(before, mid, diff)]
        {
            &&& unstaged_saved(before, mid, diff)
            &&& match diff {
                Err(failure) => after == mid && saved == Err::<Snapshot, WorkflowError>(
                    WorkflowError::Capture(Cause::Git(failure)),
                ),
                Ok(patch) => backed_up_and_done(
                    host,
                    mid,
                    after,
                    staged_files,
                    deleted,
                    patch,
                    saved,
                ),
            }
        }
}

/// What `save_snapshot` does, in this order: the deleted files are listed;
/// the patch is made; the backup is saved; the files that were listed as
/// deleted are deleted again; the files that are partly staged get their
/// staged content. The first step that fails ends it.
pub open spec fn snapshot_saved<H: Fn(HostRequest) -> HostReply>(
    host: H,
    before: Seq<Call>,
    after: Seq<Call>,
    staged_files: Vec<Vec<u8>>,
    saved: Result<Snapshot, WorkflowError>,
) -> bool {
    exists|mid: Seq<Call>, deleted: Result<Seq<Seq<u8>>, GitFailure>|
        #![trigger deleted_listed(before, mid, deleted)]
        {
            &&& deleted_listed(before, mid, deleted)
            &&& match deleted {
                Err(failure) => after == mid && saved == Err::<Snapshot, WorkflowError>(
                    WorkflowError::Capture(Cause::Git(failure)),
                ),
                Ok(gone) => diffed_and_done(host, mid, after, staged_files, gone, saved),
            }
        }
}

/// The error of a capture step that failed: with the stash's id where the
/// stash was made before, and without where nothing was touched yet.
pub fn capture_error(backup: &Option<StashRecord>, cause: Cause) -> (error: WorkflowError)
    ensures
        match *backup {
            Some(record) => error matches WorkflowError::CaptureDirty { stash_id, cause: why }
                && stash_id@ == record.stash_id@ && why == cause,
            None => error == WorkflowError::Capture(cause),
        },
{
    match backup {
        Some(record) => WorkflowError::CaptureDirty { stash_id: copy_bytes(&record.stash_id), cause },
        None => WorkflowError::Capture(cause),
    }
}

/// The id of the backup stash, copied.
fn copy_backup_id(backup: &Option<StashRecord>) -> (id: Option<Vec<u8>>)
    ensures
        bytes_of(id) == backup_id(*backup),
{
    match backup {
        Some(record) => Some(copy_bytes(&record.stash_id)),
        None => None,
    }
}

/// The guard against an empty commit: after the command's changes were
/// staged, something must still be staged.
pub fn guard_empty_commit(staged_after: &Vec<Vec<u8>>) -> (verdict: Result<(), WorkflowError>)
    ensures
        verdict == if staged_after.len() == 0 {
            Err::<(), WorkflowError>(WorkflowError::EmptyCommit)
        } else {
            Ok(())
        },
{
    if staged_after.len() == 0 {
        Err(WorkflowError::EmptyCommit)
    } else {
        Ok(())
    }
}

impl GitRepository {
    /// The staged files: the paths in which the index differs from HEAD, or
    /// every path of the index where there is no commit yet.
    pub fn get_staged_files(&mut self) -> (staged: Result<Vec<Vec<u8>>, GitFailure>)
        ensures
            staged_listed(old(self).journal(), final(self).journal(), paths_outcome(staged)),
            staged matches Ok(files) ==> all_nul_free(path_seq(files@)),
    {
        let head = self.head_tree();
        let ghost asked = bytes_outcome(head);
        let head_tree = match head {
            Ok(tree) => Some(tree),
            Err(HeadFailure::NoHead(failure)) => {
                if failure.kind == FailureKind::UnbornBranch {
                    None
                } else {
                    assert(tree_of(asked) is Err);
                    return Err(failure);
                }
            },
            Err(HeadFailure::NoTree(failure)) => {
                assert(tree_of(asked) is Err);
                return Err(failure);
            },
        };
        assert(tree_of(asked) == Ok::<Option<Seq<u8>>, GitFailure>(bytes_of(head_tree)));
        let compared = self.diff_tree_to_index(&head_tree);
        let ghost deltas = deltas_outcome(compared);
        let staged = match compared {
            Ok(found) => {
                proof {
                    changed_paths_nul_free(delta_seq(found@));
                }
                Ok(changed_paths(&found))
            },
            Err(failure) => Err(failure),
        };
        assert(paths_outcome(staged) == changed_of(deltas));
        staged
    }

    /// The files that are staged and have further changes that are not:
    /// the staged files that the diff between index and working directory
    /// names too. No file is listed twice.
    pub(crate) fn get_partially_staged_files(&mut self, include_from_files: bool) -> (partly:
        Result<Vec<Vec<u8>>, GitFailure>)
        ensures
            partly_listed(
                old(self).journal(),
                final(self).journal(),
                include_from_files,
                paths_outcome(partly),
            ),
            partly matches Ok(files) ==> all_nul_free(path_seq(files@)) && path_seq(
                files@,
            ).no_duplicates(),
    {
        let ghost before = self.journal();
        let listed = self.get_staged_files();
        let ghost mid = self.journal();
        let ghost seen = paths_outcome(listed);
        let staged = match listed {
            Ok(files) => files,
            Err(failure) => {
                return Err(failure);
            },
        };
        assert(staged_listed(before, mid, seen) && seen == Ok::<Seq<Seq<u8>>, GitFailure>(
            path_seq(staged@),
        ));
        let compared = self.diff_index_to_workdir(true);
        let ghost deltas = deltas_outcome(compared);
        let unstaged = match compared {
            Ok(found) => touched_paths(&found, include_from_files),
            Err(failure) => {
                assert(common_of(
                    seen->Ok_0,
                    deltas,
                    include_from_files,
                    Err::<Seq<Seq<u8>>, GitFailure>(failure),
                ));
                return Err(failure);
            },
        };
        let partly = common_paths(&staged, &unstaged);
        proof {
            let both = path_seq(partly@);
            assert forall|i: int| 0 <= i < both.len() implies nul_free(#[trigger] both[i]) by {
                assert(both.to_set().contains(both[i]));
            }
            assert(common_of(
                seen->Ok_0,
                deltas,
                include_from_files,
                Ok::<Seq<Seq<u8>>, GitFailure>(both),
            ));
        }
        Ok(partly)
    }

    /// The files that the index holds and the working directory lacks.
    pub(crate) fn get_deleted_files(&mut self) -> (deleted: Result<Vec<Vec<u8>>, GitFailure>)
        ensures
            deleted_listed(old(self).journal(), final(self).journal(), paths_outcome(deleted)),
    {
        let compared = self.diff_index_to_workdir(false);
        let ghost deltas = deltas_outcome(compared);
        let deleted = match compared {
            Ok(found) => Ok(deleted_paths(&found)),
            Err(failure) => Err(failure),
        };
        assert(paths_outcome(deleted) == deleted_of(deltas));
        deleted
    }

    /// The place in the stash list of the stash with this id, if it is there.
    pub(crate) fn get_stash_index_from_id(&mut self, stash_id: &Vec<u8>) -> (found: Result<
        Option<usize>,
        GitFailure,
    >)
        ensures
            index_found(old(self).journal(), final(self).journal(), stash_id@, found),
    {
        let read = self.stash_ids();
        let ghost ids = paths_outcome(read);
        let found = match read {
            Ok(list) => Ok(find_stash_index(&list, stash_id)),
            Err(failure) => Err(failure),
        };
        assert(place_of(ids, stash_id@, found));
        found
    }

    /// Applies the stash with this id to working directory and index.
    pub(crate) fn apply_stash(&mut self, stash_id: &Vec<u8>) -> (applied: Result<(), Cause>)
        ensures
            stash_applied(old(self).journal(), final(self).journal(), stash_id@, applied),
    {
        match self.get_stash_index_from_id(stash_id) {
            Ok(Some(index)) => {
                let outcome = self.stash_apply(index);
                let ghost tried = outcome;
                let applied = match outcome {
                    Ok(()) => Ok(()),
                    Err(failure) => Err(Cause::Git(failure)),
                };
                assert(applied == git_cause(tried));
                applied
            },
            Ok(None) => Err(Cause::StashMissing(copy_bytes(stash_id))),
            Err(failure) => Err(Cause::Git(failure)),
        }
    }

    /// Makes index and working directory those of HEAD's commit.
    pub(crate) fn hard_reset(&mut self) -> (reset: Result<(), GitFailure>)
        ensures
            final(self).journal() == old(self).journal().push(Call::ResetHard(reset)),
    {
        self.reset_hard()
    }

    /// Stages what the command left of the snapshot's files. The paths are
    /// taken as they are, not as patterns; a file that is gone is staged as
    /// deleted.
    pub(crate) fn stage_modifications(&mut self, snapshot: &Snapshot) -> (staged: Result<
        (),
        GitFailure,
    >)
        ensures
            final(self).journal() == old(self).journal().push(
                Call::AddAll(path_seq(snapshot.staged_files@), staged),
            ),
    {
        self.add_all(&snapshot.staged_files)
    }

    /// Applies the saved patch to the working directory. A patch that no
    /// longer applies is a conflict: nothing is merged by hand.
    pub(crate) fn merge_modifications(&mut self, unstaged_diff: ParsedPatch) -> (merged: Result<
        (),
        WorkflowError,
    >)
        ensures
            exists|outcome: Result<(), GitFailure>|
                #![trigger merge_of(outcome)]
                final(self).journal() == old(self).journal().push(
                    Call::ApplyToWorkdir(unstaged_diff.source(), outcome),
                ) && merged == merge_of(outcome),
    {
        let outcome = self.apply_to_workdir(&unstaged_diff);
        let ghost tried = outcome;
        let merged = match outcome {
            Ok(()) => Ok(()),
            Err(failure) => Err(WorkflowError::UnstagedConflict(failure)),
        };
        assert(merged == merge_of(tried));
        merged
    }

    /// The patch from the index to the working directory for the files that
    /// are partly staged, binary changes included; `None` where no file is.
    pub(crate) fn save_unstaged_diff(&mut self) -> (saved: Result<Option<Vec<u8>>, GitFailure>)
        ensures
            unstaged_saved(old(self).journal(), final(self).journal(), patch_outcome(saved)),
    {
        let partly = match self.get_partially_staged_files(true) {
            Ok(files) => files,
            Err(failure) => {
                return Err(failure);
            },
        };
        if partly.len() == 0 {
            return Ok(None);
        }
        let outcome = self.print_index_to_workdir(&partly, true);
        let ghost printed = bytes_outcome(outcome);
        let saved = match outcome {
            Ok(patch) => Ok(Some(patch)),
            Err(failure) => Err(failure),
        };
        assert(patch_outcome(saved) == printed_of(printed));
        saved
    }

    /// Gives each file that is partly staged the content that the index has
    /// of it; the index stays as it is. Where no file is partly staged
    /// nothing is checked out.
    pub(crate) fn hide_partially_staged_changes(&mut self) -> (hidden: Result<(), GitFailure>)
        ensures
            partly_hidden(old(self).journal(), final(self).journal(), hidden),
    {
        let partly = match self.get_partially_staged_files(false) {
            Ok(files) => files,
            Err(failure) => {
                return Err(failure);
            },
        };
        if partly.len() == 0 {
            return Ok(());
        }
        self.checkout_index(&partly, false)
    }

    /// Applies the stash that was just made, writes the merge files back,
    /// and gives the record of the stash.
    pub(crate) fn reapply_stash<H: Fn(HostRequest) -> HostReply>(
        &mut self,
        stash_id: Vec<u8>,
        merge_status: MergeStatus,
        host: &H,
    ) -> (saved: Result<Option<StashRecord>, WorkflowError>)
        requires
            answers_all(*host),
        ensures
            stash_reapplied(
                *host,
                old(self).journal(),
                final(self).journal(),
                stash_id@,
                merge_status,
                saved,
            ),
    {
        let ghost before = self.journal();
        let applied = self.apply_stash(&stash_id);
        let ghost mid = self.journal();
        assert(stash_applied(before, mid, stash_id@, applied));
        match applied {
            Ok(()) => {},
            Err(cause) => {
                return Err(WorkflowError::CaptureDirty { stash_id, cause });
            },
        }
        let written = self.restore_merge_status(&merge_status, host);
        let ghost wrote = written;
        assert(status_restored(*host, mid, self.journal(), merge_status, wrote));
        let saved = match written {
            Ok(()) => Ok(Some(StashRecord { stash_id, merge_status })),
            Err(cause) => Err(WorkflowError::CaptureDirty { stash_id, cause }),
        };
        assert(record_of(saved, stash_id@, merge_status, wrote));
        saved
    }

    /// Reads the merge state, makes the stash, and puts everything back.
    pub(crate) fn read_and_stash<H: Fn(HostRequest) -> HostReply>(&mut self, host: &H) -> (saved:
        Result<Option<StashRecord>, WorkflowError>)
        requires
            answers_all(*host),
        ensures
            read_and_stashed(*host, old(self).journal(), final(self).journal(), saved),
    {
        let ghost before = self.journal();
        let read = self.save_merge_status(host);
        let ghost mid = self.journal();
        assert(status_saved(*host, before, mid, read));
        let merge_status = match read {
            Ok(status) => status,
            Err(cause) => {
                return Err(WorkflowError::Capture(cause));
            },
        };
        let made = self.stash_save(STASHER_NAME, STASHER_EMAIL, BACKUP_MESSAGE);
        let ghost tried = bytes_outcome(made);
        assert(made_id(tried) is Some <==> tried is Ok);
        let saved = match made {
            Ok(stash_id) => self.reapply_stash(stash_id, merge_status, host),
            Err(failure) => {
                if failure.kind == FailureKind::NotFound {
                    Ok(None)
                } else {
                    Err(WorkflowError::Capture(Cause::Git(failure)))
                }
            },
        };
        assert(stash_made(*host, mid, self.journal(), merge_status, saved));
        saved
    }

    /// Backs working directory and index up in a stash, and puts both back
    /// as they were: the merge state is read before the stash is made, the
    /// stash is applied again at once, and the merge state written back.
    ///
    /// A repository without a commit, or with nothing to stash, gets no stash.
    pub(crate) fn save_snapshot_stash<H: Fn(HostRequest) -> HostReply>(&mut self, host: &H) -> (saved:
        Result<Option<StashRecord>, WorkflowError>)
        requires
            answers_all(*host),
        ensures
            backup_saved(*host, old(self).journal(), final(self).journal(), saved),
            saved matches Err(error) ==> error is Capture || error is CaptureDirty,
    {
        let empty = self.is_empty();
        let ghost asked = empty;
        assert(has_commit(asked) <==> asked == Ok::<bool, GitFailure>(false));
        match empty {
            Ok(true) => Ok(None),
            Ok(false) => self.read_and_stash(host),
            Err(failure) => Err(WorkflowError::Capture(Cause::Git(failure))),
        }
    }

    /// Deletes the deleted files again and hides what is partly staged; the
    /// snapshot is the result.
    pub(crate) fn remove_and_hide<H: Fn(HostRequest) -> HostReply>(
        &mut self,
        staged_files: Vec<Vec<u8>>,
        deleted_files: &Vec<Vec<u8>>,
        unstaged_diff: Option<Vec<u8>>,
        backup_stash: Option<StashRecord>,
        host: &H,
    ) -> (saved: Result<Snapshot, WorkflowError>)
        requires
            answers_all(*host),
        ensures
            removed_and_done(
                *host,
                old(self).journal(),
                final(self).journal(),
                staged_files,
                path_seq(deleted_files@),
                bytes_of(unstaged_diff),
                backup_stash,
                saved,
            ),
    {
        let ghost before = self.journal();
        let removal = self.delete_files(deleted_files, host);
        let ghost mid = self.journal();
        assert(files_deleted(*host, before, mid, path_seq(deleted_files@), removal));
        match removal {
            Ok(()) => {},
            Err(cause) => {
                return Err(capture_error(&backup_stash, cause));
            },
        }
        let hidden = self.hide_partially_staged_changes();
        let ghost tried = hidden;
        assert(partly_hidden(mid, self.journal(), tried));
        let saved = match hidden {
            Ok(()) => Ok(Snapshot { staged_files, backup_stash, unstaged_diff }),
            Err(failure) => Err(capture_error(&backup_stash, Cause::Git(failure))),
        };
        assert(hidden_and_done(
            mid,
            self.journal(),
            staged_files,
            bytes_of(unstaged_diff),
            backup_stash,
            saved,
        ));
        saved
    }

    /// Saves what is needed to undo the run, and leaves the working
    /// directory with the staged changes alone.
    ///
    /// In this order: the deleted files are listed; the patch of the changes
    /// that are not staged is made; the backup stash is made and applied
    /// again; the deleted files, which the stash brought back, are deleted
    /// again; the files that are partly staged get their staged content.
    /// The list of staged files is taken as given.
    pub fn save_snapshot<H: Fn(HostRequest) -> HostReply>(
        &mut self,
        staged_files: Vec<Vec<u8>>,
        host: &H,
    ) -> (saved: Result<Snapshot, WorkflowError>)
        requires
            answers_all(*host),
        ensures
            snapshot_saved(*host, old(self).journal(), final(self).journal(), staged_files, saved),
            saved matches Ok(snapshot) ==> snapshot.staged_files == staged_files,
            saved matches Err(error) ==> error is Capture || error is CaptureDirty,
    {
        let ghost before = self.journal();
        let deleted = self.get_deleted_files();
        let ghost j1 = self.journal();
        let ghost gone = paths_outcome(deleted);
        assert(deleted_listed(before, j1, gone));
        let deleted_files = match deleted {
            Ok(files) => files,
            Err(failure) => {
                return Err(WorkflowError::Capture(Cause::Git(failure)));
            },
        };
        let diff = self.save_unstaged_diff();
        let ghost j2 = self.journal();
        let ghost patch = patch_outcome(diff);
        assert(unstaged_saved(j1, j2, patch));
        let unstaged_diff = match diff {
            Ok(saved) => saved,
            Err(failure) => {
                return Err(WorkflowError::Capture(Cause::Git(failure)));
            },
        };
        let backup = self.save_snapshot_stash(host);
        let ghost j3 = self.journal();
        let ghost backed = backup;
        assert(backup_saved(*host, j2, j3, backed));
        let saved = match backup {
            Ok(record) => self.remove_and_hide(
                staged_files,
                &deleted_files,
                unstaged_diff,
                record,
                host,
            ),
            Err(error) => Err(error),
        };
        assert(backed_up_and_done(
            *host,
            j2,
            self.journal(),
            staged_files,
            gone->Ok_0,
            patch->Ok_0,
            saved,
        ));
        saved
    }

    /// Merges the saved patch, where there is one, into the working directory.
    pub(crate) fn merge_saved_patch(&mut self, unstaged_diff: &Option<Vec<u8>>) -> (applied: Result<
        (),
        WorkflowError,
    >)
        ensures
            patch_merged(old(self).journal(), final(self).journal(), *unstaged_diff, applied),
    {
        match unstaged_diff {
            Some(raw_diff) => match parse_patch(raw_diff) {
                Ok(parsed) => self.merge_modifications(parsed),
                Err(failure) => Err(WorkflowError::Apply(Cause::Git(failure))),
            },
            None => Ok(()),
        }
    }

    /// Lists the staged files after the command's changes were staged,
    /// refuses an empty commit, and merges the saved patch.
    pub(crate) fn check_and_merge(&mut self, unstaged_diff: &Option<Vec<u8>>) -> (applied: Result<
        (),
        WorkflowError,
    >)
        ensures
            checked_and_merged(old(self).journal(), final(self).journal(), *unstaged_diff, applied),
    {
        let staged_after = match self.get_staged_files() {
            Ok(files) => files,
            Err(failure) => {
                return Err(WorkflowError::Apply(Cause::Git(failure)));
            },
        };
        match guard_empty_commit(&staged_after) {
            Ok(()) => {},
            Err(error) => {
                return Err(error);
            },
        }
        self.merge_saved_patch(unstaged_diff)
    }

    /// Takes the command's changes to the snapshot's files into the index,
    /// and puts the changes that were not staged back on top.
    ///
    /// Fails with `EmptyCommit` where nothing is staged after that, and with
    /// `UnstagedConflict` where the saved patch no longer applies.
    pub fn apply_modifications(&mut self, snapshot: &Snapshot) -> (applied: Result<
        (),
        WorkflowError,
    >)
        ensures
            modifications_applied(old(self).journal(), final(self).journal(), *snapshot, applied),
            applied matches Err(error) ==> error is Apply || error is EmptyCommit
                || error is UnstagedConflict,
            applied matches Err(error) && error is UnstagedConflict
                ==> snapshot.unstaged_diff is Some,
    {
        let added = self.stage_modifications(snapshot);
        let ghost tried = added;
        assert(git_cause(tried) is Ok <==> tried is Ok);
        match added {
            Ok(()) => self.check_and_merge(&snapshot.unstaged_diff),
            Err(failure) => Err(WorkflowError::Apply(Cause::Git(failure))),
        }
    }

    /// Applies the backup, where there is one, and writes its merge files
    /// back.
    pub(crate) fn apply_backup<H: Fn(HostRequest) -> HostReply>(
        &mut self,
        backup: &Option<StashRecord>,
        host: &H,
    ) -> (restored: Result<(), WorkflowError>)
        requires
            answers_all(*host),
        ensures
            backup_applied(*host, old(self).journal(), final(self).journal(), *backup, restored),
    {
        let ghost before = self.journal();
        match backup {
            Some(record) => {
                let applied = self.apply_stash(&record.stash_id);
                let ghost mid = self.journal();
                assert(stash_applied(before, mid, record.stash_id@, applied));
                match applied {
                    Ok(()) => {},
                    Err(cause) => {
                        return Err(
                            WorkflowError::Restore {
                                backup: Some(copy_bytes(&record.stash_id)),
                                cause,
                            },
                        );
                    },
                }
                let written = self.restore_merge_status(&record.merge_status, host);
                let ghost wrote = written;
                assert(status_restored(*host, mid, self.journal(), record.merge_status, wrote));
                let restored = match written {
                    Ok(()) => Ok(()),
                    Err(cause) => Err(
                        WorkflowError::Restore { backup: Some(copy_bytes(&record.stash_id)), cause },
                    ),
                };
                assert(restored_of(restored, backup_id(*backup), wrote));
                restored
            },
            None => Ok(()),
        }
    }

    /// Brings back what was there before the run: index and working
    /// directory are reset to HEAD, then the backup stash is applied, index
    /// included, and the merge files are written back.
    ///
    /// The stash stays in the stash list whether this succeeds or not.
    pub fn restore_snapshot<H: Fn(HostRequest) -> HostReply>(
        &mut self,
        snapshot: &Snapshot,
        host: &H,
    ) -> (restored: Result<(), WorkflowError>)
        requires
            answers_all(*host),
        ensures
            snapshot_restored(
                *host,
                old(self).journal(),
                final(self).journal(),
                snapshot.backup_stash,
                restored,
            ),
            restored matches Err(error) ==> error matches WorkflowError::Restore { backup, .. }
                && bytes_of(backup) == backup_id(snapshot.backup_stash),
    {
        let reset = self.hard_reset();
        let ghost tried = reset;
        assert(git_cause(tried) is Ok <==> tried is Ok);
        match reset {
            Ok(()) => self.apply_backup(&snapshot.backup_stash, host),
            Err(failure) => Err(
                WorkflowError::Restore {
                    backup: copy_backup_id(&snapshot.backup_stash),
                    cause: Cause::Git(failure),
                },
            ),
        }
    }

    /// Drops the backup stash. The stash is looked up by its id, since its
    /// place in the list may have changed. A snapshot without a backup has
    /// nothing to drop.
    pub fn clean_snapshot(&mut self, snapshot: Snapshot) -> (cleaned: Result<(), WorkflowError>)
        ensures
            backup_dropped(
                old(self).journal(),
                final(self).journal(),
                backup_id(snapshot.backup_stash),
                cleaned,
            ),
            snapshot.backup_stash is None ==> cleaned is Ok,
            cleaned matches Err(error) ==> error matches WorkflowError::Clean { stash_id, .. }
                && Some(stash_id@) == backup_id(snapshot.backup_stash),
    {
        let ghost before = self.journal();
        match snapshot.backup_stash {
            Some(record) => {
                let stash_id = record.stash_id;
                let ghost id = backup_id(snapshot.backup_stash)->Some_0;
                let found = self.get_stash_index_from_id(&stash_id);
                assert(index_found(before, self.journal(), id, found));
                match found {
                    Ok(Some(index)) => {
                        let outcome = self.stash_drop(index);
                        let ghost tried = outcome;
                        let cleaned = match outcome {
                            Ok(()) => Ok(()),
                            Err(failure) => Err(
                                WorkflowError::Clean { stash_id, cause: Cause::Git(failure) },
                            ),
                        };
                        assert(drop_of(cleaned, id, tried));
                        cleaned
                    },
                    Ok(None) => {
                        let missing = copy_bytes(&stash_id);
                        Err(WorkflowError::Clean { stash_id, cause: Cause::StashMissing(missing) })
                    },
                    Err(failure) => Err(
                        WorkflowError::Clean { stash_id, cause: Cause::Git(failure) },
                    ),
                }
            },
            None => Ok(()),
        }
    }
}

} // verus!
