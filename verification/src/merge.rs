//! The state of a merge that is under way: three files in the repository's
//! directory, kept as the bytes they hold and never read into.

use vstd::prelude::*;
use crate::error::{Cause, MergeFile};
use crate::git::{asked, home_of, Call, GitRepository};
use crate::host::{answers_all, HostReply, HostRequest};
use crate::paths::{copy_bytes, path_seq};

verus! {

/// What the three merge files held when they were read. A file that did not
/// exist holds `None`.
#[derive(Debug)]
pub struct MergeStatus {
    pub merge_head: Option<Vec<u8>>,
    pub merge_mode: Option<Vec<u8>>,
    pub merge_msg: Option<Vec<u8>>,
}

/// The name of a merge file in the repository's directory.
pub open spec fn name_of(file: MergeFile) -> Seq<char> {
    match file {
        MergeFile::Head => "MERGE_HEAD"@,
        MergeFile::Mode => "MERGE_MODE"@,
        MergeFile::Msg => "MERGE_MSG"@,
    }
}

/// The name of a merge file in the repository's directory.
pub fn file_name(file: MergeFile) -> (name: &'static str)
    ensures
        name@ == name_of(file),
{
    match file {
        MergeFile::Head => "MERGE_HEAD",
        MergeFile::Mode => "MERGE_MODE",
        MergeFile::Msg => "MERGE_MSG",
    }
}

/// What the reply to a read means: the file's bytes, `None` for a file that
/// is not there, or the failure.
pub open spec fn read_outcome_of(file: MergeFile, reply: HostReply) -> Result<
    Option<Vec<u8>>,
    Cause,
> {
    match reply {
        HostReply::Contents(contents) => Ok(Some(contents)),
        HostReply::Absent => Ok(None),
        HostReply::Failed(failure) => Err(Cause::Read(file, failure)),
        _ => Err(Cause::UnexpectedReply),
    }
}

/// What the reply to a write means: done, or the failure.
pub open spec fn write_outcome_of(file: MergeFile, reply: HostReply) -> Result<(), Cause> {
    match reply {
        HostReply::Done => Ok(()),
        HostReply::Failed(failure) => Err(Cause::Write(file, failure)),
        _ => Err(Cause::UnexpectedReply),
    }
}

/// What the reply to a deletion means: done, or the failure.
pub open spec fn remove_outcome_of(path: Vec<u8>, reply: HostReply) -> Result<(), Cause> {
    match reply {
        HostReply::Done => Ok(()),
        HostReply::Failed(failure) => Err(Cause::Remove(path, failure)),
        _ => Err(Cause::UnexpectedReply),
    }
}

/// The first failure of the three, in the order head, mode, message; success
/// where none failed.
pub open spec fn first_failure_of(
    head: Result<(), Cause>,
    mode: Result<(), Cause>,
    msg: Result<(), Cause>,
) -> Result<(), Cause> {
    if head is Err {
        head
    } else if mode is Err {
        mode
    } else {
        msg
    }
}

/// Reads the host's reply to the request to read a merge file.
pub fn read_outcome(file: MergeFile, reply: HostReply) -> (outcome: Result<Option<Vec<u8>>, Cause>)
    ensures
        outcome == read_outcome_of(file, reply),
{
    match reply {
        HostReply::Contents(contents) => Ok(Some(contents)),
        HostReply::Absent => Ok(None),
        HostReply::Failed(failure) => Err(Cause::Read(file, failure)),
        _ => Err(Cause::UnexpectedReply),
    }
}

/// Reads the host's reply to the request to write a merge file.
pub fn write_outcome(file: MergeFile, reply: HostReply) -> (outcome: Result<(), Cause>)
    ensures
        outcome == write_outcome_of(file, reply),
{
    match reply {
        HostReply::Done => Ok(()),
        HostReply::Failed(failure) => Err(Cause::Write(file, failure)),
        _ => Err(Cause::UnexpectedReply),
    }
}

/// Reads the host's reply to the request to delete a file.
pub fn remove_outcome(path: Vec<u8>, reply: HostReply) -> (outcome: Result<(), Cause>)
    ensures
        outcome == remove_outcome_of(path, reply),
{
    match reply {
        HostReply::Done => Ok(()),
        HostReply::Failed(failure) => Err(Cause::Remove(path, failure)),
        _ => Err(Cause::UnexpectedReply),
    }
}

/// The result of writing the three files back: every write has been tried
/// by the time this is asked, and the first failure is the one reported.
pub fn first_failure(
    head: Result<(), Cause>,
    mode: Result<(), Cause>,
    msg: Result<(), Cause>,
) -> (first: Result<(), Cause>)
    ensures
        first == first_failure_of(head, mode, msg),
{
    if head.is_err() {
        head
    } else if mode.is_err() {
        mode
    } else {
        msg
    }
}

/// The request to read a merge file of the repository that the journal
/// belongs to.
pub open spec fn read_request(journal: Seq<Call>, file: MergeFile) -> HostRequest {
    HostRequest::ReadFile { directory: home_of(journal), file }
}

/// The request to write a merge file of the repository that the journal
/// belongs to.
pub open spec fn write_request(journal: Seq<Call>, file: MergeFile, contents: Vec<u8>) -> HostRequest {
    HostRequest::WriteFile { directory: home_of(journal), file, contents }
}

/// One merge file was read: the host was asked for the file of this kind in
/// the repository's own directory, and `outcome` is what its reply means.
pub open spec fn file_read<H: Fn(HostRequest) -> HostReply>(
    host: H,
    before: Seq<Call>,
    after: Seq<Call>,
    file: MergeFile,
    outcome: Result<Option<Vec<u8>>, Cause>,
) -> bool {
    exists|reply: HostReply|
        #![trigger asked(host, before, after, read_request(before, file), reply)]
        asked(host, before, after, read_request(before, file), reply) && outcome
            == read_outcome_of(file, reply)
}

/// The last of the three reads: the message is read, and the status is put
/// together.
pub open spec fn msg_read<H: Fn(HostRequest) -> HostReply>(
    host: H,
    before: Seq<Call>,
    after: Seq<Call>,
    merge_head: Option<Vec<u8>>,
    merge_mode: Option<Vec<u8>>,
    saved: Result<MergeStatus, Cause>,
) -> bool {
    exists|msg: Result<Option<Vec<u8>>, Cause>|
        #![trigger file_read(host, before, after, MergeFile::Msg, msg)]
        file_read(host, before, after, MergeFile::Msg, msg) && saved == match msg {
            Ok(merge_msg) => Ok(MergeStatus { merge_head, merge_mode, merge_msg }),
            Err(cause) => Err(cause),
        }
}

/// The second of the three reads and what follows it: the mode is read;
/// a failure ends it, else the message is read.
pub open spec fn mode_read<H: Fn(HostRequest) -> HostReply>(
    host: H,
    before: Seq<Call>,
    after: Seq<Call>,
    merge_head: Option<Vec<u8>>,
    saved: Result<MergeStatus, Cause>,
) -> bool {
    exists|mid: Seq<Call>, mode: Result<Option<Vec<u8>>, Cause>|
        #![trigger file_read(host, before, mid, MergeFile::Mode, mode)]
        file_read(host, before, mid, MergeFile::Mode, mode) && match mode {
            Ok(merge_mode) => msg_read(host, mid, after, merge_head, merge_mode, saved),
            Err(cause) => after == mid && saved == Err::<MergeStatus, Cause>(cause),
        }
}

/// What `save_merge_status` does: the three merge files are read, in the
/// order head, mode, message. The first read that fails ends it, and no
/// further file is asked for. Nothing else is asked of the host, and no call
/// is made on the repository.
pub open spec fn status_saved<H: Fn(HostRequest) -> HostReply>(
    host: H,
    before: Seq<Call>,
    after: Seq<Call>,
    saved: Result<MergeStatus, Cause>,
) -> bool {
    exists|mid: Seq<Call>, head: Result<Option<Vec<u8>>, Cause>|
        #![trigger file_read(host, before, mid, MergeFile::Head, head)]
        file_read(host, before, mid, MergeFile::Head, head) && match head {
            Ok(merge_head) => mode_read(host, mid, after, merge_head, saved),
            Err(cause) => after == mid && saved == Err::<MergeStatus, Cause>(cause),
        }
}

/// One merge file was written back: for a file that was not there nothing
/// is asked and `outcome` is success; for one that was, the host is asked to
/// write its bytes to the file of this kind in the repository's own
/// directory, and `outcome` is what its reply means.
pub open spec fn file_written<H: Fn(HostRequest) -> HostReply>(
    host: H,
    before: Seq<Call>,
    after: Seq<Call>,
    file: MergeFile,
    saved: Option<Vec<u8>>,
    outcome: Result<(), Cause>,
) -> bool {
    match saved {
        Some(bytes) => exists|contents: Vec<u8>, reply: HostReply|
            #![trigger asked(host, before, after, write_request(before, file, contents), reply)]
            contents@ == bytes@ && asked(
                host,
                before,
                after,
                write_request(before, file, contents),
                reply,
            ) && outcome == write_outcome_of(file, reply),
        None => after == before && outcome == Ok::<(), Cause>(()),
    }
}

/// What `restore_merge_status` does: the three merge files are written
/// back, in the order head, mode, message, each whatever became of the one
/// before; the result is the first failure of the three. Nothing else is
/// asked of the host, and no call is made on the repository.
pub open spec fn status_restored<H: Fn(HostRequest) -> HostReply>(
    host: H,
    before: Seq<Call>,
    after: Seq<Call>,
    status: MergeStatus,
    restored: Result<(), Cause>,
) -> bool {
    exists|
        first: Seq<Call>,
        second: Seq<Call>,
        head: Result<(), Cause>,
        mode: Result<(), Cause>,
        msg: Result<(), Cause>,
    |
        #![trigger
            file_written(host, before, first, MergeFile::Head, status.merge_head, head),
            file_written(host, first, second, MergeFile::Mode, status.merge_mode, mode),
            file_written(host, second, after, MergeFile::Msg, status.merge_msg, msg),
        ]
        {
            &&& file_written(host, before, first, MergeFile::Head, status.merge_head, head)
            &&& file_written(host, first, second, MergeFile::Mode, status.merge_mode, mode)
            &&& file_written(host, second, after, MergeFile::Msg, status.merge_msg, msg)
            &&& restored == first_failure_of(head, mode, msg)
        }
}

/// One file was deleted again: the host was asked to delete the file at
/// this path, and `outcome` is what its reply means.
pub open spec fn file_removed<H: Fn(HostRequest) -> HostReply>(
    host: H,
    before: Seq<Call>,
    after: Seq<Call>,
    path: Seq<u8>,
    outcome: Result<(), Cause>,
) -> bool {
    exists|relative: Vec<u8>, named: Vec<u8>, reply: HostReply|
        #![trigger asked(host, before, after, HostRequest::RemoveFile { relative }, reply), remove_outcome_of(named, reply)]
        relative@ == path && named@ == path && asked(
            host,
            before,
            after,
            HostRequest::RemoveFile { relative },
            reply,
        ) && outcome == remove_outcome_of(named, reply)
}

/// The files were deleted again, one after the other in their order, and
/// the host reported each as done or gone already.
pub open spec fn all_removed<H: Fn(HostRequest) -> HostReply>(
    host: H,
    before: Seq<Call>,
    after: Seq<Call>,
    files: Seq<Seq<u8>>,
) -> bool
    decreases files.len(),
{
    if files.len() == 0 {
        after == before
    } else {
        &&& after.len() > 0
        &&& all_removed(host, before, after.drop_last(), files.drop_last())
        &&& file_removed(host, after.drop_last(), after, files.last(), Ok(()))
    }
}

/// What `delete_files` does: the files are deleted again in their order.
/// The first deletion that fails ends it, and its failure is the result.
/// Nothing else is asked of the host, and no call is made on the repository.
pub open spec fn files_deleted<H: Fn(HostRequest) -> HostReply>(
    host: H,
    before: Seq<Call>,
    after: Seq<Call>,
    files: Seq<Seq<u8>>,
    deleted: Result<(), Cause>,
) -> bool {
    match deleted {
        Ok(()) => all_removed(host, before, after, files),
        Err(cause) => exists|n: int, mid: Seq<Call>|
            #![trigger all_removed(host, before, mid, files.take(n))]
            0 <= n < files.len() && all_removed(host, before, mid, files.take(n)) && file_removed(
                host,
                mid,
                after,
                files[n],
                Err(cause),
            ),
    }
}

impl GitRepository {
    /// Asks the host for the contents of one merge file.
    pub(crate) fn read_file<H: Fn(HostRequest) -> HostReply>(
        &mut self,
        file: MergeFile,
        host: &H,
    ) -> (outcome: Result<Option<Vec<u8>>, Cause>)
        requires
            answers_all(*host),
        ensures
            file_read(*host, old(self).journal(), final(self).journal(), file, outcome),
    {
        let ghost before = self.journal();
        let directory = self.directory();
        let reply = self.ask(host, HostRequest::ReadFile { directory, file });
        assert(asked(*host, before, self.journal(), read_request(before, file), reply));
        read_outcome(file, reply)
    }

    /// Asks the host to write one merge file back, if it was there.
    pub(crate) fn write_file<H: Fn(HostRequest) -> HostReply>(
        &mut self,
        file: MergeFile,
        saved: &Option<Vec<u8>>,
        host: &H,
    ) -> (outcome: Result<(), Cause>)
        requires
            answers_all(*host),
        ensures
            file_written(*host, old(self).journal(), final(self).journal(), file, *saved, outcome),
    {
        match saved {
            Some(bytes) => {
                let ghost before = self.journal();
                let directory = self.directory();
                let contents = copy_bytes(bytes);
                let ghost sent = contents;
                let reply = self.ask(host, HostRequest::WriteFile { directory, file, contents });
                assert(asked(
                    *host,
                    before,
                    self.journal(),
                    write_request(before, file, sent),
                    reply,
                ));
                write_outcome(file, reply)
            },
            None => Ok(()),
        }
    }

    /// Reads the three merge files, in the order head, mode, message. The
    /// first read that fails ends it; a file that is not there is no failure.
    pub fn save_merge_status<H: Fn(HostRequest) -> HostReply>(&mut self, host: &H) -> (saved: Result<
        MergeStatus,
        Cause,
    >)
        requires
            answers_all(*host),
        ensures
            status_saved(*host, old(self).journal(), final(self).journal(), saved),
    {
        let ghost before = self.journal();
        let head = self.read_file(MergeFile::Head, host);
        let ghost first = self.journal();
        assert(file_read(*host, before, first, MergeFile::Head, head));
        let merge_head = match head {
            Ok(contents) => contents,
            Err(cause) => {
                return Err(cause);
            },
        };
        let mode = self.read_file(MergeFile::Mode, host);
        let ghost second = self.journal();
        assert(file_read(*host, first, second, MergeFile::Mode, mode));
        let merge_mode = match mode {
            Ok(contents) => contents,
            Err(cause) => {
                return Err(cause);
            },
        };
        let msg = self.read_file(MergeFile::Msg, host);
        assert(file_read(*host, second, self.journal(), MergeFile::Msg, msg));
        let saved = match msg {
            Ok(merge_msg) => Ok(MergeStatus { merge_head, merge_mode, merge_msg }),
            Err(cause) => Err(cause),
        };
        assert(msg_read(*host, second, self.journal(), merge_head, merge_mode, saved));
        saved
    }

    /// Writes back the merge files that were there. All three are tried
    /// before the first failure is returned.
    pub fn restore_merge_status<H: Fn(HostRequest) -> HostReply>(
        &mut self,
        merge_status: &MergeStatus,
        host: &H,
    ) -> (restored: Result<(), Cause>)
        requires
            answers_all(*host),
        ensures
            status_restored(
                *host,
                old(self).journal(),
                final(self).journal(),
                *merge_status,
                restored,
            ),
    {
        let ghost before = self.journal();
        let head = self.write_file(MergeFile::Head, &merge_status.merge_head, host);
        let ghost first = self.journal();
        let mode = self.write_file(MergeFile::Mode, &merge_status.merge_mode, host);
        let ghost second = self.journal();
        let msg = self.write_file(MergeFile::Msg, &merge_status.merge_msg, host);
        assert(file_written(*host, before, first, MergeFile::Head, merge_status.merge_head, head));
        assert(file_written(*host, first, second, MergeFile::Mode, merge_status.merge_mode, mode));
        assert(file_written(
            *host,
            second,
            self.journal(),
            MergeFile::Msg,
            merge_status.merge_msg,
            msg,
        ));
        first_failure(head, mode, msg)
    }

    /// Deletes the files again, in their order. The first deletion that
    /// fails ends it.
    pub fn delete_files<H: Fn(HostRequest) -> HostReply>(
        &mut self,
        files: &Vec<Vec<u8>>,
        host: &H,
    ) -> (deleted: Result<(), Cause>)
        requires
            answers_all(*host),
        ensures
            files_deleted(
                *host,
                old(self).journal(),
                final(self).journal(),
                path_seq(files@),
                deleted,
            ),
    {
        let ghost before = self.journal();
        let mut i: usize = 0;
        assert(path_seq(files@).take(0) =~= Seq::<Seq<u8>>::empty());
        while i < files.len()
            invariant
                i <= files.len(),
                answers_all(*host),
                before == old(self).journal(),
                all_removed(*host, before, self.journal(), path_seq(files@).take(i as int)),
            decreases files.len() - i,
        {
            let ghost mid = self.journal();
            let relative = copy_bytes(&files[i]);
            let named = copy_bytes(&files[i]);
            let reply = self.ask(host, HostRequest::RemoveFile { relative });
            let outcome = remove_outcome(named, reply);
            assert(file_removed(*host, mid, self.journal(), path_seq(files@)[i as int], outcome));
            match outcome {
                Ok(()) => {},
                Err(cause) => {
                    return Err(cause);
                },
            }
            proof {
                let next = path_seq(files@).take(i as int + 1);
                assert(next.drop_last() =~= path_seq(files@).take(i as int));
                assert(self.journal().drop_last() =~= mid);
            }
            i += 1;
        }
        assert(path_seq(files@).take(files.len() as int) =~= path_seq(files@));
        Ok(())
    }
}

} // verus!
