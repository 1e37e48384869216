//! The command line that the shell gets, and what to make of how it ended.

use vstd::prelude::*;
use vstd::utf8::{decode_utf8, valid_utf8};
use crate::error::{Cause, WorkflowError};
use crate::host::{ExitReport, HostReply};
use crate::paths::path_seq;

verus! {

/// The texts that a list of strings stands for.
pub open spec fn texts(tokens: Seq<String>) -> Seq<Seq<char>> {
    tokens.map_values(|s: String| s@)
}

/// The parts in their order, with the separator between each two.
pub open spec fn joined(parts: Seq<Seq<char>>, separator: Seq<char>) -> Seq<char>
    decreases parts.len(),
{
    if parts.len() == 0 {
        Seq::empty()
    } else if parts.len() == 1 {
        parts[0]
    } else {
        joined(parts.drop_last(), separator) + separator + parts.last()
    }
}

/// A path as the command line shows it: its text where it is UTF-8, and
/// nothing where it is not.
pub open spec fn shown(path: Seq<u8>) -> Seq<Seq<char>> {
    if valid_utf8(path) {
        seq![decode_utf8(path)]
    } else {
        Seq::empty()
    }
}

/// The paths that the command line shows, in their order.
pub open spec fn shown_paths(paths: Seq<Seq<u8>>) -> Seq<Seq<char>>
    decreases paths.len(),
{
    if paths.len() == 0 {
        Seq::empty()
    } else {
        shown_paths(paths.drop_last()) + shown(paths.last())
    }
}

/// The command line: the command's tokens, then the staged paths that are
/// UTF-8, all separated by single spaces. Nothing is quoted or escaped.
pub open spec fn command_line_of(command: Seq<Seq<char>>, staged: Seq<Seq<u8>>) -> Seq<char> {
    joined(command + shown_paths(staged), seq![' '])
}

/// `std::str::from_utf8`: the bytes as text where they are valid UTF-8,
/// `None` where they are not.
#[verifier::external_body]
fn from_utf8(bytes: &Vec<u8>) -> (text: Option<String>)
    ensures
        text is Some <==> valid_utf8(bytes@),
        text matches Some(s) ==> s@ == decode_utf8(bytes@),
{
    match std::str::from_utf8(bytes.as_slice()) {
        Ok(text) => Some(text.to_string()),
        Err(_) => None,
    }
}

/// `itertools::join`: the parts, each written as it is, with the separator
/// between each two.
#[verifier::external_body]
fn join(parts: &Vec<String>, separator: &str) -> (line: String)
    ensures
        line@ == joined(texts(parts@), separator@),
{
    itertools::join(parts, separator)
}

/// Builds the string that is handed to the shell after `-c`.
pub fn command_line(command: &Vec<String>, staged_files: &Vec<Vec<u8>>) -> (line: String)
    ensures
        line@ == command_line_of(texts(command@), path_seq(staged_files@)),
{
    let mut parts: Vec<String> = Vec::new();
    let mut i: usize = 0;
    while i < command.len()
        invariant
            i <= command.len(),
            parts.len() == i,
            forall|k: int| 0 <= k < i ==> parts@[k]@ == command@[k]@,
        decreases command.len() - i,
    {
        parts.push(command[i].clone());
        i += 1;
    }
    let mut j: usize = 0;
    while j < staged_files.len()
        invariant
            j <= staged_files.len(),
            texts(parts@) == texts(command@) + shown_paths(path_seq(staged_files@).take(j as int)),
        decreases staged_files.len() - j,
    {
        assert(path_seq(staged_files@).take(j as int + 1).drop_last() =~= path_seq(
            staged_files@,
        ).take(j as int));
        let ghost before = texts(parts@);
        match from_utf8(&staged_files[j]) {
            Some(text) => {
                parts.push(text);
                assert(texts(parts@) =~= before + shown(staged_files@[j as int]@));
            },
            None => {},
        }
        assert(texts(parts@) =~= texts(command@) + shown_paths(
            path_seq(staged_files@).take(j as int + 1),
        ));
        j += 1;
    }
    assert(path_seq(staged_files@).take(staged_files@.len() as int) =~= path_seq(staged_files@));
    proof {
        reveal_strlit(" ");
        assert(" "@ =~= seq![' ']);
    }
    join(&parts, " ")
}

/// What the end of the command means: success for the exit code zero, else
/// the error that names the exit code or the signal.
pub fn judge_exit(report: ExitReport) -> (verdict: Result<(), WorkflowError>)
    ensures
        verdict == match report {
            ExitReport::Code(code) => if code == 0 {
                Ok::<(), WorkflowError>(())
            } else {
                Err(WorkflowError::CommandExit { code })
            },
            ExitReport::Signal(signal) => Err(WorkflowError::CommandSignal { signal }),
        },
{
    match report {
        ExitReport::Code(code) => {
            if code == 0 {
                Ok(())
            } else {
                Err(WorkflowError::CommandExit { code })
            }
        },
        ExitReport::Signal(signal) => Err(WorkflowError::CommandSignal { signal }),
    }
}

/// How the run of the command went, as the host's reply tells it.
pub open spec fn command_outcome_of(reply: HostReply) -> Result<(), WorkflowError> {
    match reply {
        HostReply::Exited(ExitReport::Code(code)) => if code == 0 {
            Ok(())
        } else {
            Err(WorkflowError::CommandExit { code })
        },
        HostReply::Exited(ExitReport::Signal(signal)) => Err(
            WorkflowError::CommandSignal { signal },
        ),
        HostReply::Failed(failure) => Err(WorkflowError::CommandNotRun(Cause::Spawn(failure))),
        _ => Err(WorkflowError::CommandNotRun(Cause::UnexpectedReply)),
    }
}

/// Reads the host's reply to the request to run the command.
pub fn command_outcome(reply: HostReply) -> (outcome: Result<(), WorkflowError>)
    ensures
        outcome == command_outcome_of(reply),
{
    match reply {
        HostReply::Exited(report) => judge_exit(report),
        HostReply::Failed(failure) => Err(WorkflowError::CommandNotRun(Cause::Spawn(failure))),
        _ => Err(WorkflowError::CommandNotRun(Cause::UnexpectedReply)),
    }
}

} // verus!
