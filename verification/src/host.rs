//! What the library asks of the program around it: files and the command.
//!
//! The library reads no file and starts no process. It hands each such piece
//! of work to a host, a function from a request to a reply, and decides on
//! what comes back. Nothing is assumed of the host but that it answers.

use vstd::prelude::*;
use std::path::PathBuf;
use crate::error::{HostFailure, MergeFile};

verus! {

/// `std::path::PathBuf`, carried through as it is: the library never looks
/// inside one.
#[verifier::external_type_specification]
#[verifier::external_body]
pub struct ExPathBuf(PathBuf);

/// One piece of work for the host.
#[derive(Debug)]
pub enum HostRequest {
    /// Read the whole merge file of this kind, which lies in this directory
    /// under the name that `merge::file_name` gives. A file that does not
    /// exist is answered with `Absent`.
    ReadFile { directory: PathBuf, file: MergeFile },
    /// Create the merge file of this kind in this directory with these
    /// bytes, or overwrite it.
    WriteFile { directory: PathBuf, file: MergeFile, contents: Vec<u8> },
    /// Delete the file at this path, which is relative to the repository. A
    /// file that does not exist cannot be deleted: that is a failure.
    RemoveFile { relative: Vec<u8> },
    /// Run `shell -c command` and wait for it.
    RunCommand { shell: PathBuf, command: String },
}

/// How a process ended: with an exit code, or by a signal.
#[derive(Clone, Copy, Debug, PartialEq, Eq, Structural)]
pub enum ExitReport {
    Code(i32),
    Signal(i32),
}

/// The host's answer to a request.
#[derive(Debug)]
pub enum HostReply {
    /// The bytes of the file that was read.
    Contents(Vec<u8>),
    /// There is no file at the path.
    Absent,
    /// The file was written or deleted.
    Done,
    /// The command ran and ended.
    Exited(ExitReport),
    /// The request failed.
    Failed(HostFailure),
}

/// The host can be handed every request.
pub open spec fn answers_all<H: Fn(HostRequest) -> HostReply>(host: H) -> bool {
    forall|request: HostRequest| call_requires(host, (request,))
}

} // verus!
