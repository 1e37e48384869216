//! What can go wrong, by the phase in which it does.

use vstd::prelude::*;

verus! {

/// The three files in which Git keeps a merge that is under way.
#[derive(Clone, Copy, Debug, PartialEq, Eq, Structural)]
pub enum MergeFile {
    Head,
    Mode,
    Msg,
}

/// What the repository said about a failed operation, as far as the
/// workflow distinguishes it.
#[derive(Clone, Copy, Debug, PartialEq, Eq, Structural)]
pub enum FailureKind {
    /// The thing asked for does not exist; a stash with nothing to save ends so.
    NotFound,
    /// HEAD names a branch that has no commit yet.
    UnbornBranch,
    /// Anything else.
    Other,
}

/// A failed repository operation.
#[derive(Debug)]
pub struct GitFailure {
    pub kind: FailureKind,
    pub message: String,
}

/// A failed request to the host: a file or a process.
#[derive(Debug)]
pub struct HostFailure {
    pub message: String,
}

/// Why one step of a phase failed.
#[derive(Debug)]
pub enum Cause {
    /// A repository operation failed.
    Git(GitFailure),
    /// A merge file could not be read.
    Read(MergeFile, HostFailure),
    /// A merge file could not be written.
    Write(MergeFile, HostFailure),
    /// A file that was deleted before could not be deleted again.
    Remove(Vec<u8>, HostFailure),
    /// No stash in the list has this id.
    StashMissing(Vec<u8>),
    /// The command could not be started or waited for.
    Spawn(HostFailure),
    /// The host answered a request with a reply of another kind.
    UnexpectedReply,
}

/// An error of the workflow.
#[derive(Debug)]
pub enum WorkflowError {
    /// The repository could not be opened.
    Open(GitFailure),
    /// The staged files could not be listed.
    StagedFiles(GitFailure),
    /// The filter is no valid glob.
    Filter(String),
    /// The snapshot failed before a stash was made: nothing was touched.
    Capture(Cause),
    /// The snapshot failed after the stash was made; the stash is still in
    /// the stash list and holds the full backup.
    CaptureDirty { stash_id: Vec<u8>, cause: Cause },
    /// The command did not run to its end.
    CommandNotRun(Cause),
    /// The command ended with an exit code other than zero.
    CommandExit { code: i32 },
    /// The command was ended by a signal.
    CommandSignal { signal: i32 },
    /// The command's changes could not be staged.
    Apply(Cause),
    /// After the command nothing was left to commit.
    EmptyCommit,
    /// The changes that were not staged no longer apply to what the command left.
    UnstagedConflict(GitFailure),
    /// The state before the run could not be brought back; where a stash
    /// was made it is still in the stash list.
    Restore { backup: Option<Vec<u8>>, cause: Cause },
    /// The backup stash could not be dropped; it is still in the stash list.
    Clean { stash_id: Vec<u8>, cause: Cause },
}

} // verus!
