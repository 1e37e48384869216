//! The repository, and every call that the library makes into `git2`.
//!
//! What a call returns depends on the repository on disk, so the trusted
//! functions here promise little: that paths which come out of a diff hold
//! no zero byte, and nothing else. Each of them is called at one place, a
//! method of `GitRepository` that enters the call, with what it was given
//! and what it gave, into the repository's journal. Requests to the host go
//! the same way, through `ask`. The journal is ghost state: it is what the
//! contracts of the callers speak of when they say which calls and requests
//! were made, in which order, and what was made of the results.

use vstd::prelude::*;
use std::path::PathBuf;
use crate::delta::{delta_seq, deltas_nul_free, DeltaStatus, FileDelta, FileDeltaView};
use crate::error::{FailureKind, GitFailure, WorkflowError};
use crate::host::{answers_all, HostReply, HostRequest};
use crate::patch::append_line;
use crate::paths::{all_nul_free, bytes_of, path_seq};

verus! {

/// `git2::Repository`, an open repository.
#[verifier::external_type_specification]
#[verifier::external_body]
pub struct ExRepository(git2::Repository);

/// `git2::Error`, the error of every `git2` call.
#[verifier::external_type_specification]
#[verifier::external_body]
pub struct ExGitError(git2::Error);

/// `git2::Delta`, the status of one entry of a diff.
#[verifier::external_type_specification]
#[verifier::external_body]
pub struct ExDelta(git2::Delta);

/// `git2::Diff`, a diff that was computed or parsed.
#[verifier::external_type_specification]
#[verifier::external_body]
pub struct ExDiff<'a>(git2::Diff<'a>);

/// `git2::Reference`, a reference of the repository, here always HEAD.
#[verifier::external_type_specification]
#[verifier::external_body]
pub struct ExReference<'a>(git2::Reference<'a>);

/// Why the tree of HEAD could not be had.
#[derive(Debug)]
pub enum HeadFailure {
    /// HEAD could not be resolved; on a branch without a commit it cannot.
    NoHead(GitFailure),
    /// HEAD was resolved, and the tree of its commit could not be found.
    NoTree(GitFailure),
}

/// One entry of the journal: a call into the repository or a request to the
/// host, with what it was given and what it gave.
pub enum Call {
    /// The repository was taken in hand; its own directory lies here.
    Opened(PathBuf),
    /// The id of the tree of HEAD's commit was asked for.
    HeadTree(Result<Seq<u8>, HeadFailure>),
    /// The tree, or nothing, was compared with the index.
    DiffTreeToIndex(Option<Seq<u8>>, Result<Seq<FileDeltaView>, GitFailure>),
    /// The index was compared with the working directory, binary changes
    /// shown or not.
    DiffIndexToWorkdir(bool, Result<Seq<FileDeltaView>, GitFailure>),
    /// The changes of these paths between index and working directory were
    /// printed as a patch, binary changes shown or not.
    PrintIndexToWorkdir(Seq<Seq<u8>>, bool, Result<Seq<u8>, GitFailure>),
    /// The repository was asked whether it has no commit.
    IsEmpty(Result<bool, GitFailure>),
    /// A stash was made of working directory and index, signed with this
    /// name and address and labelled with this message.
    StashSave(Seq<char>, Seq<char>, Seq<char>, Result<Seq<u8>, GitFailure>),
    /// The ids of the stash list were read off the log of this reference.
    StashIds(Seq<char>, Result<Seq<Seq<u8>>, GitFailure>),
    /// The stash at this place was applied, index included.
    StashApply(usize, Result<(), GitFailure>),
    /// The stash at this place was dropped.
    StashDrop(usize, Result<(), GitFailure>),
    /// Index and working directory were reset to HEAD's commit.
    ResetHard(Result<(), GitFailure>),
    /// These paths were checked out of the index, by force; the flag says
    /// whether the index was to be updated with it.
    CheckoutIndex(Seq<Seq<u8>>, bool, Result<(), GitFailure>),
    /// These paths were added to the index, taken as they are, and the index
    /// was written.
    AddAll(Seq<Seq<u8>>, Result<(), GitFailure>),
    /// The patch that was parsed from these bytes was applied to the
    /// working directory.
    ApplyToWorkdir(Seq<u8>, Result<(), GitFailure>),
    /// The host was asked for a piece of work, and gave this reply.
    Host(HostRequest, HostReply),
}

/// The step from `before` to `after` is one request to the host and its
/// reply, and nothing else.
pub open spec fn asked<H: Fn(HostRequest) -> HostReply>(
    host: H,
    before: Seq<Call>,
    after: Seq<Call>,
    request: HostRequest,
    reply: HostReply,
) -> bool {
    call_ensures(host, (request,), reply) && after == before.push(Call::Host(request, reply))
}

/// The directory of the repository that a journal belongs to: where it was
/// found to lie when the repository was taken in hand.
pub open spec fn home_of(journal: Seq<Call>) -> PathBuf {
    journal[0]->Opened_0
}

/// A journal as it stands when a repository was just taken in hand: it
/// holds where the repository lies, and nothing else.
pub open spec fn just_opened(journal: Seq<Call>) -> bool {
    journal.len() == 1 && journal[0] is Opened
}

/// No request to the host was made from `before` to `after`.
pub open spec fn no_request_since(before: Seq<Call>, after: Seq<Call>) -> bool {
    forall|i: int| before.len() <= i < after.len() ==> !((#[trigger] after[i]) is Host)
}

/// A result with bytes, as the journal holds it.
pub open spec fn bytes_outcome<E>(outcome: Result<Vec<u8>, E>) -> Result<Seq<u8>, E> {
    match outcome {
        Ok(bytes) => Ok(bytes@),
        Err(failure) => Err(failure),
    }
}

/// A result with deltas, as the journal holds it.
pub open spec fn deltas_outcome(outcome: Result<Vec<FileDelta>, GitFailure>) -> Result<
    Seq<FileDeltaView>,
    GitFailure,
> {
    match outcome {
        Ok(deltas) => Ok(delta_seq(deltas@)),
        Err(failure) => Err(failure),
    }
}

/// A result with paths or ids, as the journal holds it.
pub open spec fn paths_outcome(outcome: Result<Vec<Vec<u8>>, GitFailure>) -> Result<
    Seq<Seq<u8>>,
    GitFailure,
> {
    match outcome {
        Ok(paths) => Ok(path_seq(paths@)),
        Err(failure) => Err(failure),
    }
}

/// The name of the reference whose log is the stash list.
pub const STASH_REFERENCE: &'static str = "refs/stash";

/// A Git repository, with the operations that the snapshot workflow needs
/// and the journal of the calls made on it.
pub struct GitRepository {
    repository: git2::Repository,
    record: Record,
}

/// What a repository keeps beside its handle: where it lies, and its
/// journal, which begins with that.
struct Record {
    directory: PathBuf,
    journal: Ghost<Seq<Call>>,
}

impl Record {
    /// The journal begins with where the repository lies.
    #[verifier::type_invariant]
    spec fn begins_at_home(self) -> bool {
        self.journal@.len() > 0 && self.journal@[0] == Call::Opened(self.directory)
    }
}

/// A patch that was parsed, with the bytes it was parsed from.
pub struct ParsedPatch {
    diff: git2::Diff<'static>,
    source: Ghost<Seq<u8>>,
}

/// Reads `code` and `message` off a `git2::Error`: the two codes that the
/// workflow tells apart, and the text.
#[verifier::external_body]
fn failure_from(error: git2::Error) -> GitFailure {
    let kind = match error.code() {
        git2::ErrorCode::NotFound => FailureKind::NotFound,
        git2::ErrorCode::UnbornBranch => FailureKind::UnbornBranch,
        _ => FailureKind::Other,
    };
    GitFailure { kind, message: error.message().to_string() }
}

/// Names the variant of a `git2::Delta`.
#[verifier::external_body]
fn delta_status(status: git2::Delta) -> DeltaStatus {
    match status {
        git2::Delta::Unmodified => DeltaStatus::Unmodified,
        git2::Delta::Added => DeltaStatus::Added,
        git2::Delta::Deleted => DeltaStatus::Deleted,
        git2::Delta::Modified => DeltaStatus::Modified,
        git2::Delta::Renamed => DeltaStatus::Renamed,
        git2::Delta::Copied => DeltaStatus::Copied,
        git2::Delta::Ignored => DeltaStatus::Ignored,
        git2::Delta::Untracked => DeltaStatus::Untracked,
        git2::Delta::Typechange => DeltaStatus::Typechange,
        git2::Delta::Unreadable => DeltaStatus::Unreadable,
        git2::Delta::Conflicted => DeltaStatus::Conflicted,
    }
}

/// Walks `Diff::deltas` and copies out of each delta its `status` and the
/// `path_bytes` of its `old_file` and `new_file`. `git2` reads these paths
/// off C strings, so none holds a zero byte.
#[verifier::external_body]
fn deltas_of(diff: &git2::Diff<'_>) -> (deltas: Vec<FileDelta>)
    ensures
        deltas_nul_free(delta_seq(deltas@)),
{
    diff.deltas().map(|delta| FileDelta {
        status: delta_status(delta.status()),
        old_path: delta.old_file().path_bytes().map(|bytes| bytes.to_vec()),
        new_path: delta.new_file().path_bytes().map(|bytes| bytes.to_vec()),
    }).collect()
}

/// `git2::opts::strict_hash_verification`: switches the check of object
/// hashes on or off for the process.
#[verifier::external_body]
fn strict_hash_verification(enabled: bool) {
    git2::opts::strict_hash_verification(enabled)
}

/// `Repository::open_from_env`: opens the repository that `$GIT_DIR` names
/// or that holds the current directory.
#[verifier::external_body]
fn open_from_env() -> Result<git2::Repository, GitFailure> {
    git2::Repository::open_from_env().map_err(failure_from)
}

/// Whether `Diff::from_buffer` takes the bytes for a patch.
pub uninterp spec fn patch_parses(patch: Seq<u8>) -> bool;

/// `Diff::from_buffer`: parses a patch.
#[verifier::external_body]
fn diff_from_buffer(patch: &Vec<u8>) -> (parsed: Result<git2::Diff<'static>, GitFailure>)
    ensures
        parsed is Ok <==> patch_parses(patch@),
{
    git2::Diff::from_buffer(patch.as_slice()).map_err(failure_from)
}

/// `Repository::head`: HEAD, resolved.
#[verifier::external_body]
fn head(repository: &git2::Repository) -> Result<git2::Reference<'_>, GitFailure> {
    repository.head().map_err(failure_from)
}

/// `Reference::peel_to_tree`, then `Tree::id`: the id of the tree of the
/// commit that the reference leads to.
#[verifier::external_body]
fn peel_to_tree_id(head: &git2::Reference<'_>) -> Result<Vec<u8>, GitFailure> {
    match head.peel_to_tree() {
        Ok(tree) => Ok(tree.id().as_bytes().to_vec()),
        Err(error) => Err(failure_from(error)),
    }
}

/// `Repository::find_tree` where a tree is given, then
/// `Repository::diff_tree_to_index` with that tree, the repository's index
/// and no options: the deltas between the tree, or nothing, and the index.
#[verifier::external_body]
fn diff_tree_to_index(repository: &git2::Repository, tree: &Option<Vec<u8>>) -> (deltas: Result<
    Vec<FileDelta>,
    GitFailure,
>)
    ensures
        deltas matches Ok(found) ==> deltas_nul_free(delta_seq(found@)),
{
    let tree = match tree {
        Some(id) => {
            let oid = git2::Oid::from_bytes(id).map_err(failure_from)?;
            Some(repository.find_tree(oid).map_err(failure_from)?)
        },
        None => None,
    };
    let diff = repository.diff_tree_to_index(tree.as_ref(), None, None);
    Ok(deltas_of(&diff.map_err(failure_from)?))
}

/// `Repository::diff_index_to_workdir` with the repository's index and
/// `DiffOptions::show_binary` set as given: the deltas between the index
/// and the working directory.
#[verifier::external_body]
fn diff_index_to_workdir(repository: &git2::Repository, show_binary: bool) -> (deltas: Result<
    Vec<FileDelta>,
    GitFailure,
>)
    ensures
        deltas matches Ok(found) ==> deltas_nul_free(delta_seq(found@)),
{
    let mut options = git2::DiffOptions::new();
    options.show_binary(show_binary);
    let diff = repository.diff_index_to_workdir(None, Some(&mut options));
    Ok(deltas_of(&diff.map_err(failure_from)?))
}

/// `Repository::diff_index_to_workdir` with `DiffOptions::show_binary` set
/// as given and one `DiffOptions::pathspec` for each path, then
/// `Diff::print` in the format `Patch`, each printed line handed to
/// `append_line`.
#[verifier::external_body]
fn print_index_to_workdir(
    repository: &git2::Repository,
    paths: &Vec<Vec<u8>>,
    show_binary: bool,
) -> Result<Vec<u8>, GitFailure>
    requires
        all_nul_free(path_seq(paths@)),
{
    let mut options = git2::DiffOptions::new();
    options.show_binary(show_binary);
    for path in paths.iter() {
        options.pathspec(path.as_slice());
    }
    let diff = repository.diff_index_to_workdir(None, Some(&mut options));
    let mut patch = Vec::new();
    diff.map_err(failure_from)?.print(git2::DiffFormat::Patch, |_, _, line| {
        append_line(&mut patch, line.origin(), line.content());
        true
    }).map_err(failure_from)?;
    Ok(patch)
}

/// `Repository::is_empty`: whether the repository has no commit yet.
#[verifier::external_body]
fn is_empty(repository: &git2::Repository) -> Result<bool, GitFailure> {
    repository.is_empty().map_err(failure_from)
}

/// `Signature::new` with the name, the address and the time zero, then
/// `Repository::stash_save` with that signature, the message and no flags:
/// the id of the new stash.
#[verifier::external_body]
fn stash_save(repository: &mut git2::Repository, name: &str, email: &str, message: &str) -> Result<
    Vec<u8>,
    GitFailure,
> {
    let time = git2::Time::new(0, 0);
    let stasher = git2::Signature::new(name, email, &time).map_err(failure_from)?;
    match repository.stash_save(&stasher, message, None) {
        Ok(id) => Ok(id.as_bytes().to_vec()),
        Err(error) => Err(failure_from(error)),
    }
}

/// `Repository::reflog` of the reference, then `Reflog::iter` and
/// `ReflogEntry::id_new`: the new id of each entry of the log, from the
/// newest entry on. No entry's message is read.
#[verifier::external_body]
fn reflog_ids(repository: &git2::Repository, reference: &str) -> Result<Vec<Vec<u8>>, GitFailure> {
    match repository.reflog(reference) {
        Ok(reflog) => Ok(reflog.iter().map(|entry| entry.id_new().as_bytes().to_vec()).collect()),
        Err(error) => Err(failure_from(error)),
    }
}

/// `Repository::stash_apply` with `StashApplyOptions::reinstantiate_index`:
/// applies the stash at that place to the working directory and the index.
#[verifier::external_body]
fn stash_apply(repository: &mut git2::Repository, index: usize) -> Result<(), GitFailure> {
    let mut options = git2::StashApplyOptions::new();
    options.reinstantiate_index();
    repository.stash_apply(index, Some(&mut options)).map_err(failure_from)
}

/// `Repository::stash_drop`: removes the stash at that place from the list.
#[verifier::external_body]
fn stash_drop(repository: &mut git2::Repository, index: usize) -> Result<(), GitFailure> {
    repository.stash_drop(index).map_err(failure_from)
}

/// `Reference::peel_to_commit`, then `Repository::reset` to that commit
/// with `ResetType::Hard`: index and working directory become the commit's.
#[verifier::external_body]
fn reset_to(repository: &git2::Repository, head: &git2::Reference<'_>) -> Result<(), GitFailure> {
    let commit = head.peel_to_commit().map_err(failure_from)?;
    repository.reset(commit.as_object(), git2::ResetType::Hard, None).map_err(failure_from)
}

/// `Repository::checkout_index` of the repository's index with
/// `CheckoutBuilder::force`, `update_index` set as given and one `path` for
/// each path: the working directory gets the index's version of these files.
#[verifier::external_body]
fn checkout_index(
    repository: &git2::Repository,
    paths: &Vec<Vec<u8>>,
    update_index: bool,
) -> Result<(), GitFailure>
    requires
        all_nul_free(path_seq(paths@)),
{
    let mut options = git2::build::CheckoutBuilder::new();
    options.force();
    options.update_index(update_index);
    for path in paths.iter() {
        options.path(path.as_slice());
    }
    repository.checkout_index(None, Some(&mut options)).map_err(failure_from)
}

/// `Repository::index`, then `Index::add_all` of the paths with
/// `IndexAddOption::DISABLE_PATHSPEC_MATCH`, then `Index::write`.
#[verifier::external_body]
fn add_all(repository: &git2::Repository, paths: &Vec<Vec<u8>>) -> Result<(), GitFailure> {
    let mut index = repository.index().map_err(failure_from)?;
    let flags = git2::IndexAddOption::DEFAULT | git2::IndexAddOption::DISABLE_PATHSPEC_MATCH;
    index.add_all(paths.iter(), flags, None).map_err(failure_from)?;
    index.write().map_err(failure_from)
}

/// `Repository::apply` of the diff to the working directory alone.
#[verifier::external_body]
fn apply_to_workdir(repository: &git2::Repository, diff: &git2::Diff<'static>) -> Result<
    (),
    GitFailure,
> {
    repository.apply(diff, git2::ApplyLocation::WorkDir, None).map_err(failure_from)
}

/// `Repository::path`: the repository's own directory, `.git` for a
/// repository with a working directory.
#[verifier::external_body]
fn directory_of(repository: &git2::Repository) -> PathBuf {
    repository.path().to_path_buf()
}

/// `PathBuf::clone`: a copy of the path.
#[verifier::external_body]
fn clone_path(path: &PathBuf) -> (copy: PathBuf)
    ensures
        copy == *path,
{
    path.clone()
}

/// Parses a patch and keeps the bytes it was parsed from.
pub(crate) fn parse_patch(patch: &Vec<u8>) -> (parsed: Result<ParsedPatch, GitFailure>)
    ensures
        parsed is Ok <==> patch_parses(patch@),
        parsed matches Ok(taken) ==> taken.source() == patch@,
{
    match diff_from_buffer(patch) {
        Ok(diff) => Ok(ParsedPatch { diff, source: Ghost(patch@) }),
        Err(failure) => Err(failure),
    }
}

impl ParsedPatch {
    /// The bytes that the patch was parsed from.
    pub closed spec fn source(&self) -> Seq<u8> {
        self.source@
    }
}

impl GitRepository {
    /// The calls that were made on this repository, the first one first.
    pub closed spec fn journal(&self) -> Seq<Call> {
        self.record.journal@
    }

    /// The repository that the calls go to.
    pub closed spec fn handle(&self) -> git2::Repository {
        self.repository
    }

    /// Takes a repository that is open already. Its journal holds where it
    /// lies; no call has been made on it.
    pub fn new(repository: git2::Repository) -> (taken: GitRepository)
        ensures
            taken.handle() == repository,
            just_opened(taken.journal()),
    {
        let directory = directory_of(&repository);
        let ghost start = seq![Call::Opened(directory)];
        GitRepository { repository, record: Record { directory, journal: Ghost(start) } }
    }

    /// The repository's own directory.
    pub(crate) fn directory(&self) -> (directory: PathBuf)
        ensures
            directory == home_of(self.journal()),
    {
        proof {
            use_type_invariant(&self.record);
        }
        clone_path(&self.record.directory)
    }

    /// Opens the repository of the environment: the one that `$GIT_DIR`
    /// names, else the one that holds the current directory.
    ///
    /// Object hashes are not checked on reading from then on.
    pub fn open() -> (opened: Result<GitRepository, WorkflowError>)
        ensures
            opened matches Ok(repository) ==> just_opened(repository.journal()),
            opened matches Err(error) ==> error is Open,
    {
        strict_hash_verification(false);
        match open_from_env() {
            Ok(repository) => Ok(GitRepository::new(repository)),
            Err(failure) => Err(WorkflowError::Open(failure)),
        }
    }

    /// Hands a request to the host and enters it, with the reply, into the
    /// journal.
    pub(crate) fn ask<H: Fn(HostRequest) -> HostReply>(&mut self, host: &H, request: HostRequest) -> (reply:
        HostReply)
        requires
            answers_all(*host),
        ensures
            asked(*host, old(self).journal(), final(self).journal(), request, reply),
    {
        let ghost sent = request;
        let reply = host(request);
        proof {
            use_type_invariant(&self.record);
        }
        self.record.journal = Ghost(self.record.journal@.push(Call::Host(sent, reply)));
        reply
    }

    /// Asks for the id of the tree of HEAD's commit.
    pub(crate) fn head_tree(&mut self) -> (outcome: Result<Vec<u8>, HeadFailure>)
        ensures
            final(self).journal() == old(self).journal().push(
                Call::HeadTree(bytes_outcome(outcome)),
            ),
    {
        let outcome = match head(&self.repository) {
            Ok(found) => match peel_to_tree_id(&found) {
                Ok(tree) => Ok(tree),
                Err(failure) => Err(HeadFailure::NoTree(failure)),
            },
            Err(failure) => Err(HeadFailure::NoHead(failure)),
        };
        proof {
            use_type_invariant(&self.record);
        }
        self.record.journal = Ghost(self.record.journal@.push(Call::HeadTree(bytes_outcome(outcome))));
        outcome
    }

    /// Compares the tree, or nothing, with the index.
    pub(crate) fn diff_tree_to_index(&mut self, tree: &Option<Vec<u8>>) -> (outcome: Result<
        Vec<FileDelta>,
        GitFailure,
    >)
        ensures
            final(self).journal() == old(self).journal().push(
                Call::DiffTreeToIndex(bytes_of(*tree), deltas_outcome(outcome)),
            ),
            outcome matches Ok(found) ==> deltas_nul_free(delta_seq(found@)),
    {
        let outcome = diff_tree_to_index(&self.repository, tree);
        proof {
            use_type_invariant(&self.record);
        }
        self.record.journal = Ghost(
            self.record.journal@.push(Call::DiffTreeToIndex(bytes_of(*tree), deltas_outcome(outcome))),
        );
        outcome
    }

    /// Compares the index with the working directory.
    pub(crate) fn diff_index_to_workdir(&mut self, show_binary: bool) -> (outcome: Result<
        Vec<FileDelta>,
        GitFailure,
    >)
        ensures
            final(self).journal() == old(self).journal().push(
                Call::DiffIndexToWorkdir(show_binary, deltas_outcome(outcome)),
            ),
            outcome matches Ok(found) ==> deltas_nul_free(delta_seq(found@)),
    {
        let outcome = diff_index_to_workdir(&self.repository, show_binary);
        proof {
            use_type_invariant(&self.record);
        }
        self.record.journal = Ghost(
            self.record.journal@.push(Call::DiffIndexToWorkdir(show_binary, deltas_outcome(outcome))),
        );
        outcome
    }

    /// Prints the changes of the paths between index and working directory
    /// as a patch.
    pub(crate) fn print_index_to_workdir(
        &mut self,
        paths: &Vec<Vec<u8>>,
        show_binary: bool,
    ) -> (outcome: Result<Vec<u8>, GitFailure>)
        requires
            all_nul_free(path_seq(paths@)),
        ensures
            final(self).journal() == old(self).journal().push(
                Call::PrintIndexToWorkdir(path_seq(paths@), show_binary, bytes_outcome(outcome)),
            ),
    {
        let outcome = print_index_to_workdir(&self.repository, paths, show_binary);
        proof {
            use_type_invariant(&self.record);
        }
        self.record.journal = Ghost(
            self.record.journal@.push(
                Call::PrintIndexToWorkdir(path_seq(paths@), show_binary, bytes_outcome(outcome)),
            ),
        );
        outcome
    }

    /// Asks whether the repository has no commit yet.
    pub(crate) fn is_empty(&mut self) -> (outcome: Result<bool, GitFailure>)
        ensures
            final(self).journal() == old(self).journal().push(Call::IsEmpty(outcome)),
    {
        let outcome = is_empty(&self.repository);
        proof {
            use_type_invariant(&self.record);
        }
        self.record.journal = Ghost(self.record.journal@.push(Call::IsEmpty(outcome)));
        outcome
    }

    /// Makes a stash of working directory and index.
    pub(crate) fn stash_save(&mut self, name: &str, email: &str, message: &str) -> (outcome: Result<
        Vec<u8>,
        GitFailure,
    >)
        ensures
            final(self).journal() == old(self).journal().push(
                Call::StashSave(name@, email@, message@, bytes_outcome(outcome)),
            ),
    {
        let outcome = stash_save(&mut self.repository, name, email, message);
        proof {
            use_type_invariant(&self.record);
        }
        self.record.journal = Ghost(
            self.record.journal@.push(Call::StashSave(name@, email@, message@, bytes_outcome(outcome))),
        );
        outcome
    }

    /// Reads the ids of the stash list, from place 0 on.
    pub(crate) fn stash_ids(&mut self) -> (outcome: Result<Vec<Vec<u8>>, GitFailure>)
        ensures
            final(self).journal() == old(self).journal().push(
                Call::StashIds(STASH_REFERENCE@, paths_outcome(outcome)),
            ),
    {
        let outcome = reflog_ids(&self.repository, STASH_REFERENCE);
        proof {
            use_type_invariant(&self.record);
        }
        self.record.journal = Ghost(self.record.journal@.push(Call::StashIds(STASH_REFERENCE@, paths_outcome(outcome))));
        outcome
    }

    /// Applies the stash at that place to working directory and index.
    pub(crate) fn stash_apply(&mut self, index: usize) -> (outcome: Result<(), GitFailure>)
        ensures
            final(self).journal() == old(self).journal().push(Call::StashApply(index, outcome)),
    {
        let outcome = stash_apply(&mut self.repository, index);
        proof {
            use_type_invariant(&self.record);
        }
        self.record.journal = Ghost(self.record.journal@.push(Call::StashApply(index, outcome)));
        outcome
    }

    /// Drops the stash at that place.
    pub(crate) fn stash_drop(&mut self, index: usize) -> (outcome: Result<(), GitFailure>)
        ensures
            final(self).journal() == old(self).journal().push(Call::StashDrop(index, outcome)),
    {
        let outcome = stash_drop(&mut self.repository, index);
        proof {
            use_type_invariant(&self.record);
        }
        self.record.journal = Ghost(self.record.journal@.push(Call::StashDrop(index, outcome)));
        outcome
    }

    /// Resets index and working directory to HEAD's commit.
    pub(crate) fn reset_hard(&mut self) -> (outcome: Result<(), GitFailure>)
        ensures
            final(self).journal() == old(self).journal().push(Call::ResetHard(outcome)),
    {
        let outcome = match head(&self.repository) {
            Ok(found) => reset_to(&self.repository, &found),
            Err(failure) => Err(failure),
        };
        proof {
            use_type_invariant(&self.record);
        }
        self.record.journal = Ghost(self.record.journal@.push(Call::ResetHard(outcome)));
        outcome
    }

    /// Checks these paths out of the index, by force.
    pub(crate) fn checkout_index(&mut self, paths: &Vec<Vec<u8>>, update_index: bool) -> (outcome:
        Result<(), GitFailure>)
        requires
            all_nul_free(path_seq(paths@)),
        ensures
            final(self).journal() == old(self).journal().push(
                Call::CheckoutIndex(path_seq(paths@), update_index, outcome),
            ),
    {
        let outcome = checkout_index(&self.repository, paths, update_index);
        proof {
            use_type_invariant(&self.record);
        }
        self.record.journal = Ghost(
            self.record.journal@.push(Call::CheckoutIndex(path_seq(paths@), update_index, outcome)),
        );
        outcome
    }

    /// Adds these paths to the index, taken as they are, and writes the index.
    pub(crate) fn add_all(&mut self, paths: &Vec<Vec<u8>>) -> (outcome: Result<(), GitFailure>)
        ensures
            final(self).journal() == old(self).journal().push(
                Call::AddAll(path_seq(paths@), outcome),
            ),
    {
        let outcome = add_all(&self.repository, paths);
        proof {
            use_type_invariant(&self.record);
        }
        self.record.journal = Ghost(self.record.journal@.push(Call::AddAll(path_seq(paths@), outcome)));
        outcome
    }

    /// Applies a parsed patch to the working directory alone.
    pub(crate) fn apply_to_workdir(&mut self, patch: &ParsedPatch) -> (outcome: Result<
        (),
        GitFailure,
    >)
        ensures
            final(self).journal() == old(self).journal().push(
                Call::ApplyToWorkdir(patch.source(), outcome),
            ),
    {
        let outcome = apply_to_workdir(&self.repository, &patch.diff);
        proof {
            use_type_invariant(&self.record);
        }
        self.record.journal = Ghost(self.record.journal@.push(Call::ApplyToWorkdir(patch.source(), outcome)));
        outcome
    }
}

} // verus!
