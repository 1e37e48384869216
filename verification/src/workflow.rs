//! The run as a whole: prepare, run the command, apply or restore, clean.

use vstd::prelude::*;
use std::path::PathBuf;
use crate::command::{command_line, command_line_of, command_outcome, command_outcome_of, texts};
use crate::error::WorkflowError;
use crate::delta::{changed_paths_of, FileDeltaView};
use crate::error::GitFailure;
use crate::filter::{filter_staged, filtered, text_of};
use crate::git::{asked, just_opened, no_request_since, paths_outcome, Call, GitRepository};
use crate::host::{answers_all, HostReply, HostRequest};
use crate::paths::path_seq;
use crate::snapshot::{
    backup_dropped, backup_id, modifications_applied, only_calls_listed, snapshot_restored,
    snapshot_saved, staged_listed, Snapshot, StashRecord,
};

verus! {

/// What became of one of the two steps that dispose of a snapshot.
#[derive(Debug)]
pub enum Step {
    /// The step was not taken.
    NotTried,
    /// The step was taken and succeeded.
    Done,
    /// The step was taken and failed.
    Failed(WorkflowError),
}

/// How a run ended that did what it was asked.
#[derive(Debug)]
pub enum RunOutcome {
    /// No staged file was left to run the command on: nothing was run and
    /// nothing was saved.
    Skipped,
    /// The command succeeded and its changes are staged. `clean` says
    /// whether the backup could be dropped; a failure there is a notice.
    Applied { clean: Step },
}

/// A run that failed: the error that made it fail, and what became of the
/// attempts to restore and to clean up after it.
#[derive(Debug)]
pub struct RunFailure {
    pub cause: WorkflowError,
    pub restore: Step,
    pub clean: Step,
}

/// A snapshot of a repository that is waiting for its command.
pub struct Workflow {
    pub snapshot: Snapshot,
}

/// An error of the phases before the snapshot is complete.
pub open spec fn is_prepare_error(error: WorkflowError) -> bool {
    error is Open || error is StagedFiles || error is Filter || error is Capture
        || error is CaptureDirty
}

/// An error of the command or of applying its changes.
pub open spec fn is_run_error(error: WorkflowError) -> bool {
    error is CommandNotRun || error is CommandExit || error is CommandSignal || error is Apply
        || error is EmptyCommit || error is UnstagedConflict
}

/// What a step that was taken came to.
pub open spec fn step_of(result: Result<(), WorkflowError>) -> Step {
    match result {
        Ok(()) => Step::Done,
        Err(error) => Step::Failed(error),
    }
}

/// The end of a run whose snapshot was taken: success where the command
/// and the apply succeeded, else the failure with their error as its cause.
/// What restore and clean came to is reported and never takes the place of
/// that error.
pub open spec fn conclusion_of(result: Result<(), WorkflowError>, restore: Step, clean: Step) -> Result<
    RunOutcome,
    RunFailure,
> {
    match result {
        Ok(()) => Ok(RunOutcome::Applied { clean }),
        Err(cause) => Err(RunFailure { cause, restore, clean }),
    }
}

/// The restore was tried: it is done, or failed with an error of its own.
pub open spec fn restore_tried(step: Step) -> bool {
    match step {
        Step::NotTried => false,
        Step::Done => true,
        Step::Failed(error) => error is Restore,
    }
}

/// The clean-up was tried: it is done, or failed with an error of its own.
pub open spec fn clean_tried(step: Step) -> bool {
    match step {
        Step::NotTried => false,
        Step::Done => true,
        Step::Failed(error) => error is Clean,
    }
}

/// The order that every run keeps.
///
/// A run that was applied was cleaned up after. A run that failed before
/// its snapshot was complete was neither restored nor cleaned: there is no
/// snapshot to dispose of. A run that failed in its command or in the apply
/// was restored, and cleaned up after whatever the restore came to.
pub open spec fn orderly(end: Result<RunOutcome, RunFailure>) -> bool {
    match end {
        Ok(RunOutcome::Skipped) => true,
        Ok(RunOutcome::Applied { clean }) => clean_tried(clean),
        Err(failure) => if is_prepare_error(failure.cause) {
            failure.restore is NotTried && failure.clean is NotTried
        } else {
            is_run_error(failure.cause) && restore_tried(failure.restore) && clean_tried(
                failure.clean,
            )
        },
    }
}

/// Records what a step came to.
pub fn step_taken(result: Result<(), WorkflowError>) -> (step: Step)
    ensures
        step == step_of(result),
{
    match result {
        Ok(()) => Step::Done,
        Err(error) => Step::Failed(error),
    }
}

/// Puts the end of a run together.
pub fn conclude(result: Result<(), WorkflowError>, restore: Step, clean: Step) -> (end: Result<
    RunOutcome,
    RunFailure,
>)
    ensures
        end == conclusion_of(result, restore, clean),
{
    match result {
        Ok(()) => Ok(RunOutcome::Applied { clean }),
        Err(cause) => Err(RunFailure { cause, restore, clean }),
    }
}

/// What becomes of the staged files that the filter left: where none is
/// left there is no workflow, no further call and no request; else the
/// snapshot is taken of exactly these files.
pub open spec fn snapshot_taken<H: Fn(HostRequest) -> HostReply>(
    host: H,
    before: Seq<Call>,
    after: Seq<Call>,
    left: Seq<Seq<u8>>,
    prepared: Result<Option<Workflow>, WorkflowError>,
) -> bool {
    if left.len() == 0 {
        after == before && prepared == Ok::<Option<Workflow>, WorkflowError>(None)
    } else {
        exists|taken: Vec<Vec<u8>>, saved: Result<Snapshot, WorkflowError>|
            #![trigger snapshot_saved(host, before, after, taken, saved)]
            {
                &&& path_seq(taken@) == left
                &&& snapshot_saved(host, before, after, taken, saved)
                &&& match saved {
                    Err(error) => prepared == Err::<Option<Workflow>, WorkflowError>(error),
                    Ok(snapshot) => prepared == Ok::<Option<Workflow>, WorkflowError>(
                        Some(Workflow { snapshot }),
                    ),
                }
            }
    }
}

/// What `Workflow::prepare` does: it lists the staged files, passes them
/// through the filter, and takes the snapshot of what is left.
pub open spec fn prepared_for<H: Fn(HostRequest) -> HostReply>(
    host: H,
    before: Seq<Call>,
    after: Seq<Call>,
    filter: Option<Seq<char>>,
    prepared: Result<Option<Workflow>, WorkflowError>,
) -> bool {
    exists|mid: Seq<Call>, staged: Result<Seq<Seq<u8>>, GitFailure>|
        #![trigger staged_listed(before, mid, staged)]
        {
            &&& staged_listed(before, mid, staged)
            &&& match staged {
                Err(failure) => after == mid && prepared == Err::<Option<Workflow>, WorkflowError>(
                    WorkflowError::StagedFiles(failure),
                ),
                Ok(files) => match filtered(filter, files) {
                    None => after == mid && (prepared matches Err(WorkflowError::Filter(_))),
                    Some(left) => snapshot_taken(host, mid, after, left, prepared),
                },
            }
        }
}

/// What `Workflow::run` does: the host is asked, once, to run the command
/// line made of the command and the snapshot's files. Where the command
/// fails, its error is the result and nothing follows; where it succeeds,
/// its changes are applied.
pub open spec fn command_ran<H: Fn(HostRequest) -> HostReply>(
    host: H,
    shell: PathBuf,
    command: Seq<Seq<char>>,
    before: Seq<Call>,
    after: Seq<Call>,
    snapshot: Snapshot,
    ran: Result<(), WorkflowError>,
) -> bool {
    exists|mid: Seq<Call>, line: String, reply: HostReply|
        #![trigger asked(host, before, mid, HostRequest::RunCommand { shell, command: line }, reply)]
        {
            &&& line@ == command_line_of(command, path_seq(snapshot.staged_files@))
            &&& asked(host, before, mid, HostRequest::RunCommand { shell, command: line }, reply)
            &&& match command_outcome_of(reply) {
                Err(error) => after == mid && ran == Err::<(), WorkflowError>(error),
                Ok(()) => modifications_applied(mid, after, snapshot, ran),
            }
        }
}

/// How a run ends whose snapshot was taken and whose command succeeded:
/// the backup is dropped, and what that came to is reported.
pub open spec fn cleaned_after(
    before: Seq<Call>,
    after: Seq<Call>,
    backup: Option<Seq<u8>>,
    end: Result<RunOutcome, RunFailure>,
) -> bool {
    exists|cleaned: Result<(), WorkflowError>|
        #![trigger backup_dropped(before, after, backup, cleaned)]
        backup_dropped(before, after, backup, cleaned) && end == Ok::<RunOutcome, RunFailure>(
            RunOutcome::Applied { clean: step_of(cleaned) },
        )
}

/// How a run ends whose command or apply failed: the snapshot is restored,
/// then the backup is dropped, whatever the restore came to; the failure
/// keeps its cause.
pub open spec fn restored_after<H: Fn(HostRequest) -> HostReply>(
    host: H,
    before: Seq<Call>,
    after: Seq<Call>,
    backup: Option<StashRecord>,
    cause: WorkflowError,
    end: Result<RunOutcome, RunFailure>,
) -> bool {
    exists|mid: Seq<Call>, restored: Result<(), WorkflowError>, cleaned: Result<(), WorkflowError>|
        #![trigger snapshot_restored(host, before, mid, backup, restored), backup_dropped(mid, after, backup_id(backup), cleaned)]
        {
            &&& snapshot_restored(host, before, mid, backup, restored)
            &&& backup_dropped(mid, after, backup_id(backup), cleaned)
            &&& end == Err::<RunOutcome, RunFailure>(
                RunFailure { cause, restore: step_of(restored), clean: step_of(cleaned) },
            )
        }
}

/// What becomes of a snapshot that was taken: the command is run on it,
/// and the snapshot is applied or restored, and cleaned.
pub open spec fn disposed_of<H: Fn(HostRequest) -> HostReply>(
    host: H,
    shell: PathBuf,
    command: Seq<Seq<char>>,
    before: Seq<Call>,
    after: Seq<Call>,
    snapshot: Snapshot,
    end: Result<RunOutcome, RunFailure>,
) -> bool {
    exists|mid: Seq<Call>, ran: Result<(), WorkflowError>|
        #![trigger command_ran(host, shell, command, before, mid, snapshot, ran)]
        {
            &&& command_ran(host, shell, command, before, mid, snapshot, ran)
            &&& match ran {
                Ok(()) => cleaned_after(mid, after, backup_id(snapshot.backup_stash), end),
                Err(cause) => restored_after(host, mid, after, snapshot.backup_stash, cause, end),
            }
        }
}

/// What `run_on` does, as the journal of the repository shows it.
///
/// A run that is skipped has listed the staged files and done nothing
/// else: no further call was made on the repository, and nothing was asked
/// of the host, so the command did not run.
pub open spec fn run_made<H: Fn(HostRequest) -> HostReply>(
    host: H,
    shell: PathBuf,
    command: Seq<Seq<char>>,
    filter: Option<Seq<char>>,
    before: Seq<Call>,
    after: Seq<Call>,
    end: Result<RunOutcome, RunFailure>,
) -> bool {
    exists|mid: Seq<Call>, prepared: Result<Option<Workflow>, WorkflowError>|
        #![trigger prepared_for(host, before, mid, filter, prepared)]
        {
            &&& prepared_for(host, before, mid, filter, prepared)
            &&& match prepared {
                Err(cause) => after == mid && end == Err::<RunOutcome, RunFailure>(
                    RunFailure { cause, restore: Step::NotTried, clean: Step::NotTried },
                ),
                Ok(None) => after == mid && no_request_since(before, after) && end == Ok::<
                    RunOutcome,
                    RunFailure,
                >(RunOutcome::Skipped),
                Ok(Some(workflow)) => disposed_of(
                    host,
                    shell,
                    command,
                    mid,
                    after,
                    workflow.snapshot,
                    end,
                ),
            }
        }
}

/// What `run` does: it opens the repository of the environment and runs the
/// workflow on it, from the journal of a repository just opened on.
pub open spec fn opened_and_run<H: Fn(HostRequest) -> HostReply>(
    host: H,
    shell: PathBuf,
    command: Seq<Seq<char>>,
    filter: Option<Seq<char>>,
    end: Result<RunOutcome, RunFailure>,
) -> bool {
    (end matches Err(failure) && failure.cause is Open && failure.restore is NotTried
        && failure.clean is NotTried) || exists|before: Seq<Call>, after: Seq<Call>|
        #![trigger run_made(host, shell, command, filter, before, after, end)]
        just_opened(before) && run_made(host, shell, command, filter, before, after, end)
}

/// Between `before` and `after` the repository was only asked what is
/// staged: for HEAD's tree, and for the difference between that tree and
/// the index. No call was made that changes anything.
pub open spec fn only_listed_since(before: Seq<Call>, after: Seq<Call>) -> bool {
    forall|i: int|
        before.len() <= i < after.len() ==> (#[trigger] after[i]) is HeadTree || after[i]
            is DiffTreeToIndex
}

/// A run that is skipped has changed nothing and run nothing: the
/// repository was only asked what is staged, and nothing was asked of the
/// host.
pub proof fn skipped_run_only_lists<H: Fn(HostRequest) -> HostReply>(
    host: H,
    shell: PathBuf,
    command: Seq<Seq<char>>,
    filter: Option<Seq<char>>,
    before: Seq<Call>,
    after: Seq<Call>,
)
    requires
        run_made(host, shell, command, filter, before, after, Ok(RunOutcome::Skipped)),
    ensures
        only_listed_since(before, after),
        no_request_since(before, after),
{
}

/// A command that succeeds and leaves nothing staged fails the run: where
/// the host's reply to the command means success and the diff that follows
/// the add names no path, the run ends as a failure whose cause is the
/// empty-commit error. The diff is the third call after the command: after
/// the add and the question for HEAD's tree.
pub proof fn undone_change_fails_the_run<H: Fn(HostRequest) -> HostReply>(
    host: H,
    shell: PathBuf,
    command: Seq<Seq<char>>,
    before: Seq<Call>,
    after: Seq<Call>,
    snapshot: Snapshot,
    end: Result<RunOutcome, RunFailure>,
    request: HostRequest,
    reply: HostReply,
    tree: Option<Seq<u8>>,
    deltas: Seq<FileDeltaView>,
)
    requires
        disposed_of(host, shell, command, before, after, snapshot, end),
        after.len() >= before.len() + 4,
        after[before.len() as int] == Call::Host(request, reply),
        command_outcome_of(reply) is Ok,
        after[before.len() as int + 3] == Call::DiffTreeToIndex(tree, Ok(deltas)),
        changed_paths_of(deltas).len() == 0,
    ensures
        end matches Err(failure) && failure.cause == WorkflowError::EmptyCommit,
{
}

/// A run that fails after its snapshot was taken is rolled back and
/// cleaned up: the restore and the clean-up were both tried, and the
/// failure is one of the command or of the apply.
pub proof fn failed_run_is_rolled_back<H: Fn(HostRequest) -> HostReply>(
    host: H,
    shell: PathBuf,
    command: Seq<Seq<char>>,
    before: Seq<Call>,
    after: Seq<Call>,
    snapshot: Snapshot,
    end: Result<RunOutcome, RunFailure>,
)
    requires
        disposed_of(host, shell, command, before, after, snapshot, end),
        end is Err,
    ensures
        restore_tried(end->Err_0.restore),
        clean_tried(end->Err_0.clean),
        is_run_error(end->Err_0.cause),
{
}

impl Workflow {
    /// Takes the snapshot of the repository for the staged files that the
    /// filter leaves. Where it leaves none there is no workflow, and the
    /// repository is not touched.
    pub(crate) fn prepare<H: Fn(HostRequest) -> HostReply>(
        repository: &mut GitRepository,
        filter: &Option<String>,
        host: &H,
    ) -> (prepared: Result<Option<Workflow>, WorkflowError>)
        requires
            answers_all(*host),
        ensures
            prepared_for(
                *host,
                old(repository).journal(),
                final(repository).journal(),
                text_of(*filter),
                prepared,
            ),
            prepared matches Ok(None) ==> no_request_since(
                old(repository).journal(),
                final(repository).journal(),
            ),
            prepared matches Err(error) ==> is_prepare_error(error) && !(error is Open),
            prepared matches Ok(Some(workflow)) ==> workflow.snapshot.staged_files.len() > 0,
    {
        let ghost before = repository.journal();
        let listed = repository.get_staged_files();
        let ghost mid = repository.journal();
        let ghost seen = paths_outcome(listed);
        assert(staged_listed(before, mid, seen));
        let staged_files = match listed {
            Ok(files) => files,
            Err(failure) => {
                return Err(WorkflowError::StagedFiles(failure));
            },
        };
        let staged_files = match filter_staged(&staged_files, filter) {
            Ok(files) => files,
            Err(error) => {
                return Err(error);
            },
        };
        if staged_files.len() == 0 {
            proof {
                only_calls_listed(before, mid, seen);
            }
            return Ok(None);
        }
        let saved = repository.save_snapshot(staged_files, host);
        let ghost taken = saved;
        assert(snapshot_saved(*host, mid, repository.journal(), staged_files, taken));
        match saved {
            Ok(snapshot) => Ok(Some(Workflow { snapshot })),
            Err(error) => Err(error),
        }
    }

    /// Runs the command on the staged files and, where it succeeds, applies
    /// what it changed. Where the command fails nothing is applied.
    pub(crate) fn run<H: Fn(HostRequest) -> HostReply>(
        &mut self,
        repository: &mut GitRepository,
        shell: PathBuf,
        command: &Vec<String>,
        host: &H,
    ) -> (ran: Result<(), WorkflowError>)
        requires
            answers_all(*host),
        ensures
            final(self).snapshot == old(self).snapshot,
            command_ran(
                *host,
                shell,
                texts(command@),
                old(repository).journal(),
                final(repository).journal(),
                old(self).snapshot,
                ran,
            ),
            ran matches Err(error) ==> is_run_error(error),
    {
        let line = command_line(command, &self.snapshot.staged_files);
        let reply = repository.ask(host, HostRequest::RunCommand { shell, command: line });
        match command_outcome(reply) {
            Ok(()) => repository.apply_modifications(&self.snapshot),
            Err(error) => Err(error),
        }
    }

    /// Restores the snapshot.
    pub(crate) fn restore<H: Fn(HostRequest) -> HostReply>(
        &mut self,
        repository: &mut GitRepository,
        host: &H,
    ) -> (restored: Result<(), WorkflowError>)
        requires
            answers_all(*host),
        ensures
            final(self).snapshot == old(self).snapshot,
            snapshot_restored(
                *host,
                old(repository).journal(),
                final(repository).journal(),
                old(self).snapshot.backup_stash,
                restored,
            ),
            restored matches Err(error) ==> error is Restore,
    {
        repository.restore_snapshot(&self.snapshot, host)
    }

    /// Drops the snapshot's backup.
    pub(crate) fn cleanup(self, repository: &mut GitRepository) -> (cleaned: Result<
        (),
        WorkflowError,
    >)
        ensures
            backup_dropped(
                old(repository).journal(),
                final(repository).journal(),
                backup_id(self.snapshot.backup_stash),
                cleaned,
            ),
            cleaned matches Err(error) ==> error is Clean,
    {
        repository.clean_snapshot(self.snapshot)
    }
}

/// Runs the workflow on a repository that is open.
///
/// The staged files are listed and filtered. Where none is left, the run is
/// `Skipped`. Else the snapshot is taken, the command is run on the files
/// and, where it succeeds, its changes are applied. Where the command or the
/// apply fails, the snapshot is restored. Then, and in every case in which
/// the snapshot was taken, the backup is dropped. The error of the command
/// or of the apply is the failure's cause whatever restore and clean come to.
pub fn run_on<H: Fn(HostRequest) -> HostReply>(
    repository: &mut GitRepository,
    shell: PathBuf,
    command: &Vec<String>,
    filter: &Option<String>,
    host: &H,
) -> (end: Result<RunOutcome, RunFailure>)
    requires
        answers_all(*host),
    ensures
        run_made(
            *host,
            shell,
            texts(command@),
            text_of(*filter),
            old(repository).journal(),
            final(repository).journal(),
            end,
        ),
        orderly(end),
{
    let ghost before = repository.journal();
    let prepared = Workflow::prepare(repository, filter, host);
    let ghost j1 = repository.journal();
    let ghost made = prepared;
    assert(prepared_for(*host, before, j1, text_of(*filter), made));
    let mut workflow = match prepared {
        Ok(Some(workflow)) => workflow,
        Ok(None) => {
            return Ok(RunOutcome::Skipped);
        },
        Err(cause) => {
            return Err(RunFailure { cause, restore: Step::NotTried, clean: Step::NotTried });
        },
    };
    let ghost snapshot = workflow.snapshot;
    let ghost backup = snapshot.backup_stash;
    let result = workflow.run(repository, shell, command, host);
    let ghost j2 = repository.journal();
    let ghost ran = result;
    assert(command_ran(*host, shell, texts(command@), j1, j2, snapshot, ran));
    let restore = if result.is_err() {
        let restored = workflow.restore(repository, host);
        assert(snapshot_restored(*host, j2, repository.journal(), backup, restored));
        step_taken(restored)
    } else {
        Step::NotTried
    };
    let ghost j3 = repository.journal();
    let cleaned = workflow.cleanup(repository);
    assert(backup_dropped(j3, repository.journal(), backup_id(backup), cleaned));
    let clean = step_taken(cleaned);
    let end = conclude(result, restore, clean);
    assert(disposed_of(*host, shell, texts(command@), j1, repository.journal(), snapshot, end));
    end
}

/// Opens the repository of the environment and runs the workflow on it.
///
/// `shell` is the shell that gets the command after `-c`; `command` holds
/// the command's tokens; `filter` is a glob that narrows the staged files
/// down. See `run_on` for what the run does.
pub fn run<H: Fn(HostRequest) -> HostReply>(
    shell: PathBuf,
    command: &Vec<String>,
    filter: &Option<String>,
    host: &H,
) -> (end: Result<RunOutcome, RunFailure>)
    requires
        answers_all(*host),
    ensures
        opened_and_run(*host, shell, texts(command@), text_of(*filter), end),
        orderly(end),
{
    match GitRepository::open() {
        Ok(mut repository) => {
            let ghost before = repository.journal();
            let end = run_on(&mut repository, shell, command, filter, host);
            assert(run_made(
                *host,
                shell,
                texts(command@),
                text_of(*filter),
                before,
                repository.journal(),
                end,
            ));
            end
        },
        Err(cause) => Err(RunFailure { cause, restore: Step::NotTried, clean: Step::NotTried }),
    }
}

} // verus!
