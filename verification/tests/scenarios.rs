//! Whole runs on repositories in temporary directories. The host of these
//! tests runs the command with a real shell and works on real files.

use offstage::error::{Cause, HostFailure, MergeFile, WorkflowError};
use offstage::git::GitRepository;
use offstage::host::{ExitReport, HostReply, HostRequest};
use offstage::merge::file_name;
use offstage::workflow::{run_on, RunFailure, RunOutcome, Step};
use std::cell::RefCell;
use std::io::Write;
use std::path::{Path, PathBuf};

const README: &str = "README";
const LICENSE: &str = "LICENSE";

struct TestRepository {
    dir: tempfile::TempDir,
    repository: git2::Repository,
}

fn write_file(path: &Path, contents: &[u8]) {
    let mut file = tempfile::NamedTempFile::new_in(path.parent().unwrap()).unwrap();
    file.write_all(contents).unwrap();
    file.persist(path).unwrap();
}

fn read_file(repository: &git2::Repository, path: &Path) -> Vec<u8> {
    let id = repository.blob_path(path).unwrap();
    repository.find_blob(id).unwrap().content().to_vec()
}

fn remove_file(path: &Path) -> std::io::Result<()> {
    tempfile::TempPath::from_path(path).close()
}

impl TestRepository {
    fn new() -> TestRepository {
        let dir = tempfile::tempdir().unwrap();
        let repository = git2::Repository::init(dir.path()).unwrap();
        TestRepository { dir, repository }
    }

    fn path(&self, name: &str) -> PathBuf {
        self.dir.path().join(name)
    }

    fn write(&self, name: &str, contents: &str) {
        write_file(&self.path(name), contents.as_bytes());
    }

    fn read(&self, name: &str) -> String {
        String::from_utf8(read_file(&self.repository, &self.path(name))).unwrap()
    }

    fn append_line(&self, name: &str, line: &str) {
        let mut contents = self.read(name);
        contents.push_str(&format!("\n{}\n", line));
        self.write(name, &contents);
    }

    fn stage(&self, name: &str) {
        let mut index = self.repository.index().unwrap();
        index.add_path(Path::new(name)).unwrap();
        index.write().unwrap();
    }

    fn commit(&self, message: &str) {
        let tree = self.repository.index().unwrap().write_tree().unwrap();
        let tree = self.repository.find_tree(tree).unwrap();
        let signature = git2::Signature::now("me", "me@example.com").unwrap();
        let head = match self.repository.head() {
            Ok(head) => Some(head.peel_to_commit().unwrap()),
            Err(_) => None,
        };
        let parents: Vec<&git2::Commit> = head.iter().collect();
        self.repository
            .commit(Some("HEAD"), &signature, &signature, message, &tree, &parents)
            .unwrap();
    }

    fn initial_commit(&self) {
        self.write(README, "An example README.\n");
        self.stage(README);
        self.commit("Initial commit.");
    }

    fn create_license(&self) {
        self.write(LICENSE, "Free as in freedom.\n");
    }

    fn staged_blob(&self, name: &str) -> Vec<u8> {
        let mut index = self.repository.index().unwrap();
        index.read(true).unwrap();
        let entry = index.get_path(Path::new(name), 0).unwrap();
        self.repository.find_blob(entry.id).unwrap().content().to_vec()
    }

    fn stash_count(&self) -> usize {
        let mut repository = git2::Repository::open(self.dir.path()).unwrap();
        let mut count = 0;
        repository
            .stash_foreach(|_, _, _| {
                count += 1;
                true
            })
            .unwrap();
        count
    }

    /// A host that works on this repository's files and runs commands with
    /// a real shell in its working directory; what they print goes to `stdout`.
    fn host<'a>(&'a self, stdout: &'a RefCell<String>) -> impl Fn(HostRequest) -> HostReply + 'a {
        let workdir = self.dir.path().to_path_buf();
        move |request: HostRequest| -> HostReply {
            match request {
                HostRequest::ReadFile { directory, file } => {
                    let path = directory.join(file_name(file));
                    if path.is_file() {
                        HostReply::Contents(read_file(&self.repository, &path))
                    } else {
                        HostReply::Absent
                    }
                }
                HostRequest::WriteFile { directory, file, contents } => {
                    write_file(&directory.join(file_name(file)), &contents);
                    HostReply::Done
                }
                HostRequest::RemoveFile { relative } => {
                    let name = String::from_utf8(relative).unwrap();
                    match remove_file(&workdir.join(name)) {
                        Ok(()) => HostReply::Done,
                        Err(error) => HostReply::Failed(HostFailure { message: error.to_string() }),
                    }
                }
                HostRequest::RunCommand { shell, command } => {
                    let run = duct::cmd(shell, ["-c", command.as_str()])
                        .dir(&workdir)
                        .stdout_capture()
                        .unchecked()
                        .run();
                    match run {
                        Ok(output) => {
                            stdout.borrow_mut().push_str(&String::from_utf8_lossy(&output.stdout));
                            match output.status.code() {
                                Some(code) => HostReply::Exited(ExitReport::Code(code)),
                                None => HostReply::Exited(ExitReport::Signal(0)),
                            }
                        }
                        Err(error) => HostReply::Failed(HostFailure { message: error.to_string() }),
                    }
                }
            }
        }
    }

    /// A handle of the library on this repository.
    fn handle(&self) -> GitRepository {
        GitRepository::new(git2::Repository::open(self.dir.path()).unwrap())
    }

    /// Runs the workflow on this repository with `/bin/sh`, and returns how
    /// it ended with what the command printed.
    fn run(&self, command: &[&str]) -> (Result<RunOutcome, RunFailure>, String) {
        self.run_filtered(command, &None)
    }

    fn run_filtered(
        &self,
        command: &[&str],
        filter: &Option<String>,
    ) -> (Result<RunOutcome, RunFailure>, String) {
        let stdout = RefCell::new(String::new());
        let command: Vec<String> = command.iter().map(|token| token.to_string()).collect();
        let end = {
            let host = self.host(&stdout);
            run_on(&mut self.handle(), PathBuf::from("/bin/sh"), &command, filter, &host)
        };
        (end, stdout.into_inner())
    }

    /// What can be seen of the repository: the files named, in the working
    /// directory and in the index, and the number of stashes.
    fn state(&self, names: &[&str]) -> Vec<(String, Option<String>, Option<Vec<u8>>, usize)> {
        let mut index = self.repository.index().unwrap();
        index.read(true).unwrap();
        names
            .iter()
            .map(|name| {
                let on_disk = if self.path(name).is_file() { Some(self.read(name)) } else { None };
                let staged = index
                    .get_path(Path::new(name), 0)
                    .map(|entry| self.repository.find_blob(entry.id).unwrap().content().to_vec());
                (name.to_string(), on_disk, staged, self.stash_count())
            })
            .collect()
    }
}

#[test]
fn test_empty_stage_in_empty_repository_skips_command() {
    // Given
    let repository = TestRepository::new();

    // When
    let (end, stdout) = repository.run(&["echo", "marker"]);

    // Then
    assert!(matches!(end, Ok(RunOutcome::Skipped)));
    assert!(!stdout.contains("marker"));
}

#[test]
fn test_empty_stage_in_repository_skips_command() {
    // Given
    let repository = TestRepository::new();
    repository.initial_commit();

    // When
    let (end, stdout) = repository.run(&["echo", "marker"]);

    // Then
    assert!(matches!(end, Ok(RunOutcome::Skipped)));
    assert!(!stdout.contains("marker"));
}

#[test]
fn empty_stage_in_empty_repository_skips_command() {
    // Given
    let repository = TestRepository::new();

    // When
    let marker = "marker";
    let (end, stdout) = repository.run(&["echo", marker]);

    // Then
    assert!(end.is_ok());
    assert!(
        !stdout.contains(marker),
        "Output \"{}\" should not contain \"{}\".",
        stdout,
        marker
    );
    assert_eq!(repository.stash_count(), 0);
}

#[test]
fn empty_stage_in_repository_skips_command() {
    // Given
    let repository = TestRepository::new();
    repository.initial_commit();

    // When
    let marker = "marker";
    let (end, stdout) = repository.run(&["echo", marker]);

    // Then
    assert!(end.is_ok());
    assert!(
        !stdout.contains(marker),
        "Output \"{}\" should not contain \"{}\".",
        stdout,
        marker
    );
    assert_eq!(repository.stash_count(), 0);
    assert_eq!(repository.read(README), "An example README.\n");
}

#[test]
fn untracked_file_remains_after_command_succeeds() {
    // Given
    let repository = TestRepository::new();
    repository.initial_commit();

    repository.append_line(README, "A new line.");
    println!("Readme path: {:?}", repository.path(README));
    repository.stage(README);

    repository.create_license();

    // When
    let marker = "marker";
    let (end, stdout) = repository.run(&["echo", marker]);

    // Then
    assert!(matches!(end, Ok(RunOutcome::Applied { clean: Step::Done })));
    assert!(
        stdout.contains(marker),
        "Output \"{}\" should contain \"{}\".",
        stdout,
        marker
    );
    assert!(
        !stdout.contains(LICENSE),
        "Output \"{}\" should not contain untracked file \"{}\".",
        stdout,
        LICENSE
    );
    assert!(
        repository.path(LICENSE).is_file(),
        "The untracked file {} should still exist.",
        LICENSE
    );
    assert_eq!(repository.read(LICENSE), "Free as in freedom.\n");
    assert_eq!(stdout, "marker README\n");
    assert_eq!(repository.stash_count(), 0);
}

#[test]
fn unstaged_file_remains_after_command_succeeds() {
    // Given
    let repository = TestRepository::new();
    repository.initial_commit();

    repository.create_license();
    repository.stage(LICENSE);
    repository.commit("Add a license file.");

    repository.append_line(README, "A new line.");
    repository.stage(README);

    repository.append_line(LICENSE, "A new line.");

    // When
    let marker = "marker";
    let (end, stdout) = repository.run(&["echo", marker]);

    // Then
    assert!(matches!(end, Ok(RunOutcome::Applied { clean: Step::Done })));
    assert!(
        stdout.contains(marker),
        "Output \"{}\" should contain \"{}\".",
        stdout,
        marker
    );
    assert!(
        !stdout.contains(LICENSE),
        "Output \"{}\" should not contain unstaged file \"{}\".",
        stdout,
        LICENSE
    );
    let license_contents = repository.read(LICENSE);
    assert!(
        license_contents.contains("A new line."),
        "The unstaged file {} should still contain its changes.",
        LICENSE
    );
}

#[test]
fn command_failure_rolls_back() {
    let repository = TestRepository::new();
    repository.initial_commit();
    repository.append_line(README, "A new line.");
    repository.stage(README);
    let before_disk = repository.read(README);
    let before_index = repository.staged_blob(README);

    let (end, _) = repository.run(&["echo broken > README; false"]);

    let failure = end.unwrap_err();
    assert!(matches!(failure.cause, WorkflowError::CommandExit { code: 1 }));
    assert!(matches!(failure.restore, Step::Done));
    assert!(matches!(failure.clean, Step::Done));
    assert_eq!(repository.read(README), before_disk);
    assert_eq!(repository.staged_blob(README), before_index);
    assert_eq!(repository.stash_count(), 0);
}

#[test]
fn command_that_undoes_the_staged_change_is_refused() {
    let repository = TestRepository::new();
    repository.initial_commit();
    repository.append_line(README, "A new line.");
    repository.stage(README);
    let before_disk = repository.read(README);
    let before_index = repository.staged_blob(README);

    let (end, _) = repository.run(&["printf 'An example README.\\n' >"]);

    let failure = end.unwrap_err();
    assert!(matches!(failure.cause, WorkflowError::EmptyCommit));
    assert!(matches!(failure.restore, Step::Done));
    assert!(matches!(failure.clean, Step::Done));
    assert_eq!(repository.read(README), before_disk);
    assert_eq!(repository.staged_blob(README), before_index);
    assert_eq!(repository.stash_count(), 0);
}

#[test]
fn command_changes_are_staged() {
    let repository = TestRepository::new();
    repository.initial_commit();
    repository.append_line(README, "A new line.");
    repository.stage(README);

    let (end, _) = repository.run(&["printf 'Formatted.\\n' >"]);

    assert!(matches!(end, Ok(RunOutcome::Applied { clean: Step::Done })));
    assert_eq!(repository.read(README), "Formatted.\n");
    assert_eq!(repository.staged_blob(README), b"Formatted.\n".to_vec());
    assert_eq!(repository.stash_count(), 0);
}

#[test]
fn unstaged_hunk_of_a_partly_staged_file_comes_back() {
    let repository = TestRepository::new();
    repository.write(README, "one\ntwo\nthree\nfour\nfive\nsix\nseven\neight\nnine\nten\n");
    repository.stage(README);
    repository.commit("Initial commit.");
    repository.write(README, "ONE\ntwo\nthree\nfour\nfive\nsix\nseven\neight\nnine\nten\n");
    repository.stage(README);
    repository.write(README, "ONE\ntwo\nthree\nfour\nfive\nsix\nseven\neight\nnine\nTEN\n");

    // The command sees the staged content alone.
    let (end, stdout) = repository.run(&["cat"]);

    assert!(matches!(end, Ok(RunOutcome::Applied { clean: Step::Done })));
    assert_eq!(stdout, "ONE\ntwo\nthree\nfour\nfive\nsix\nseven\neight\nnine\nten\n");
    assert_eq!(
        repository.read(README),
        "ONE\ntwo\nthree\nfour\nfive\nsix\nseven\neight\nnine\nTEN\n"
    );
    assert_eq!(
        repository.staged_blob(README),
        b"ONE\ntwo\nthree\nfour\nfive\nsix\nseven\neight\nnine\nten\n".to_vec()
    );
}

#[test]
fn conflict_with_unstaged_hunk_is_reported_and_rolled_back() {
    let repository = TestRepository::new();
    repository.write(README, "one\ntwo\nthree\n");
    repository.stage(README);
    repository.commit("Initial commit.");
    repository.write(README, "ONE\ntwo\nthree\n");
    repository.stage(README);
    repository.write(README, "ONE\ntwo\nTHREE\n");
    let before_disk = repository.read(README);
    let before_index = repository.staged_blob(README);

    // The command rewrites the line that the unstaged hunk touches.
    let (end, _) = repository.run(&["printf 'ONE\\ntwo\\n3\\n' >"]);

    let failure = end.unwrap_err();
    assert!(matches!(failure.cause, WorkflowError::UnstagedConflict(_)));
    assert!(matches!(failure.restore, Step::Done));
    assert!(matches!(failure.clean, Step::Done));
    assert_eq!(repository.read(README), before_disk);
    assert_eq!(repository.staged_blob(README), before_index);
}

#[test]
fn deleted_file_that_cannot_be_deleted_again_fails_the_capture() {
    let repository = TestRepository::new();
    repository.initial_commit();
    repository.create_license();
    repository.stage(LICENSE);
    repository.commit("Add a license file.");
    repository.append_line(README, "A new line.");
    repository.stage(README);
    remove_file(&repository.path(LICENSE)).unwrap();
    let before = repository.state(&[README]);

    // The stash, applied again, leaves the file deleted: there is nothing
    // to delete again, and the host says so.
    let (end, stdout) = repository.run(&["echo"]);

    let failure = end.unwrap_err();
    match failure.cause {
        WorkflowError::CaptureDirty { stash_id, cause: Cause::Remove(path, _) } => {
            assert_eq!(stash_id.len(), 20);
            assert_eq!(path, LICENSE.as_bytes().to_vec());
        }
        other => panic!("unexpected cause {:?}", other),
    }
    assert!(matches!(failure.restore, Step::NotTried));
    assert!(matches!(failure.clean, Step::NotTried));
    assert_eq!(stdout, "");
    assert!(!repository.path(LICENSE).exists());
    assert_eq!(repository.stash_count(), 1);
    let after = repository.state(&[README]);
    assert_eq!(after[0].1, before[0].1);
    assert_eq!(after[0].2, before[0].2);
}

#[test]
fn failing_host_is_named_as_the_cause() {
    let repository = TestRepository::new();
    repository.initial_commit();
    repository.append_line(README, "A new line.");
    repository.stage(README);
    let host = |request: HostRequest| -> HostReply {
        match request {
            HostRequest::ReadFile { .. } => HostReply::Absent,
            _ => HostReply::Failed(HostFailure { message: String::from("no shell") }),
        }
    };
    let mut handle = GitRepository::new(git2::Repository::open(repository.dir.path()).unwrap());
    let command = vec![String::from("echo")];

    let end = run_on(&mut handle, PathBuf::from("/bin/sh"), &command, &None, &host);

    let failure = end.unwrap_err();
    match failure.cause {
        WorkflowError::CommandNotRun(Cause::Spawn(failure)) => {
            assert_eq!(failure.message, "no shell")
        }
        other => panic!("unexpected cause {:?}", other),
    }
    assert!(matches!(failure.restore, Step::Done));
    assert!(matches!(failure.clean, Step::Done));
    assert_eq!(repository.stash_count(), 0);
}

#[test]
fn filter_narrows_the_files_of_the_command() {
    let repository = TestRepository::new();
    repository.initial_commit();
    repository.append_line(README, "A new line.");
    repository.stage(README);
    repository.create_license();
    repository.stage(LICENSE);

    let (end, stdout) = repository.run_filtered(&["echo"], &Some(String::from("LIC*")));
    assert!(matches!(end, Ok(RunOutcome::Applied { clean: Step::Done })));
    assert_eq!(stdout, "LICENSE\n");

    let (end, stdout) = repository.run_filtered(&["echo"], &Some(String::from("*.rs")));
    assert!(matches!(end, Ok(RunOutcome::Skipped)));
    assert_eq!(stdout, "");

    let (end, stdout) = repository.run_filtered(&["echo"], &Some(String::from("[")));
    let failure = end.unwrap_err();
    assert!(matches!(failure.cause, WorkflowError::Filter(_)));
    assert!(matches!(failure.restore, Step::NotTried));
    assert!(matches!(failure.clean, Step::NotTried));
    assert_eq!(stdout, "");
}

#[test]
fn staged_file_in_a_repository_without_a_commit_is_run_on() {
    let repository = TestRepository::new();
    repository.write(README, "An example README.\n");
    repository.stage(README);

    let (end, stdout) = repository.run(&["echo", "marker"]);

    assert!(matches!(end, Ok(RunOutcome::Applied { clean: Step::Done })), "{:?}", end);
    assert_eq!(stdout, "marker README\n");
    assert_eq!(repository.staged_blob(README), b"An example README.\n".to_vec());
    assert_eq!(repository.stash_count(), 0);
}

#[test]
fn running_twice_with_a_command_that_changes_nothing_changes_nothing() {
    let repository = TestRepository::new();
    repository.initial_commit();
    repository.create_license();
    repository.stage(LICENSE);
    repository.commit("Add a license file.");
    repository.append_line(README, "A new line.");
    repository.stage(README);
    repository.append_line(LICENSE, "Not staged.");
    repository.write("untracked.txt", "Untracked.\n");
    let names = [README, LICENSE, "untracked.txt"];
    let before = repository.state(&names);

    let (first, _) = repository.run(&["true"]);
    let after_one = repository.state(&names);
    let (second, _) = repository.run(&["true"]);
    let after_two = repository.state(&names);

    assert!(matches!(first, Ok(RunOutcome::Applied { clean: Step::Done })));
    assert!(matches!(second, Ok(RunOutcome::Applied { clean: Step::Done })));
    assert_eq!(after_one, before);
    assert_eq!(after_two, before);
}

#[test]
fn save_then_restore_brings_everything_back() {
    let repository = TestRepository::new();
    repository.write(README, "one\ntwo\nthree\nfour\nfive\nsix\nseven\neight\nnine\nten\n");
    repository.stage(README);
    repository.create_license();
    repository.stage(LICENSE);
    repository.commit("Initial commit.");
    repository.write(README, "ONE\ntwo\nthree\nfour\nfive\nsix\nseven\neight\nnine\nten\n");
    repository.stage(README);
    repository.write(README, "ONE\ntwo\nthree\nfour\nfive\nsix\nseven\neight\nnine\nTEN\n");
    repository.append_line(LICENSE, "Not staged.");
    repository.write("untracked.txt", "Untracked.\n");
    let merge_msg = repository.repository.path().join("MERGE_MSG");
    write_file(&merge_msg, b"Merge branch 'other'\n");
    let names = [README, LICENSE, "untracked.txt"];
    let before = repository.state(&names);

    let stdout = RefCell::new(String::new());
    let host = repository.host(&stdout);
    let mut handle = repository.handle();
    let staged = handle.get_staged_files().unwrap();
    assert_eq!(staged, vec![README.as_bytes().to_vec()]);
    let snapshot = handle.save_snapshot(staged, &host).unwrap();

    // The snapshot holds what was asked for and what it needs to undo itself.
    assert_eq!(snapshot.staged_files, vec![README.as_bytes().to_vec()]);
    let record = snapshot.backup_stash.as_ref().unwrap();
    assert_eq!(record.stash_id.len(), 20);
    assert_eq!(record.merge_status.merge_msg, Some(b"Merge branch 'other'\n".to_vec()));
    assert_eq!(record.merge_status.merge_head, None);
    assert_eq!(record.merge_status.merge_mode, None);
    let patch = String::from_utf8(snapshot.unstaged_diff.clone().unwrap()).unwrap();
    assert!(patch.starts_with("diff --git a/README b/README\n"), "{}", patch);
    assert!(patch.contains("\n-ten\n+TEN\n"), "{}", patch);
    assert!(!patch.contains("LICENSE"), "{}", patch);

    // The working directory holds the staged content of the partly staged
    // file; the rest is as it was, the merge file included.
    assert_eq!(
        repository.read(README),
        "ONE\ntwo\nthree\nfour\nfive\nsix\nseven\neight\nnine\nten\n"
    );
    assert!(repository.read(LICENSE).contains("Not staged."));
    assert_eq!(read_file(&repository.repository, &merge_msg), b"Merge branch 'other'\n".to_vec());
    assert_eq!(repository.stash_count(), 1);

    handle.restore_snapshot(&snapshot, &host).unwrap();
    assert_eq!(read_file(&repository.repository, &merge_msg), b"Merge branch 'other'\n".to_vec());
    assert_eq!(repository.stash_count(), 1);

    handle.clean_snapshot(snapshot).unwrap();
    assert_eq!(repository.state(&names), before);
    assert_eq!(read_file(&repository.repository, &merge_msg), b"Merge branch 'other'\n".to_vec());
}

#[test]
fn clean_fails_where_the_stash_is_gone() {
    let repository = TestRepository::new();
    repository.initial_commit();
    repository.append_line(README, "A new line.");
    repository.stage(README);
    let stdout = RefCell::new(String::new());
    let host = repository.host(&stdout);
    let mut handle = repository.handle();
    let staged = handle.get_staged_files().unwrap();
    let snapshot = handle.save_snapshot(staged, &host).unwrap();
    let stash_id = snapshot.backup_stash.as_ref().unwrap().stash_id.clone();
    git2::Repository::open(repository.dir.path()).unwrap().stash_drop(0).unwrap();

    match handle.restore_snapshot(&snapshot, &host) {
        Err(WorkflowError::Restore { backup, cause: Cause::StashMissing(missing) }) => {
            assert_eq!(backup, Some(stash_id.clone()));
            assert_eq!(missing, stash_id);
        }
        other => panic!("unexpected result {:?}", other),
    }
    match handle.clean_snapshot(snapshot) {
        Err(WorkflowError::Clean { stash_id: named, cause: Cause::StashMissing(missing) }) => {
            assert_eq!(named, stash_id);
            assert_eq!(missing, stash_id);
        }
        other => panic!("unexpected result {:?}", other),
    }
}

#[test]
fn clean_drops_its_own_stash_among_others() {
    let repository = TestRepository::new();
    repository.initial_commit();
    repository.append_line(README, "A new line.");
    repository.stage(README);
    let stdout = RefCell::new(String::new());
    let host = repository.host(&stdout);
    let mut handle = repository.handle();
    let staged = handle.get_staged_files().unwrap();
    let snapshot = handle.save_snapshot(staged, &host).unwrap();

    // Another stash arrives on top of the backup.
    repository.write(LICENSE, "Free as in freedom.\n");
    let signature = git2::Signature::now("me", "me@example.com").unwrap();
    let other = git2::Repository::open(repository.dir.path())
        .unwrap()
        .stash_save(&signature, "another", Some(git2::StashFlags::INCLUDE_UNTRACKED))
        .unwrap();
    assert_eq!(repository.stash_count(), 2);

    handle.clean_snapshot(snapshot).unwrap();

    let mut left = Vec::new();
    git2::Repository::open(repository.dir.path())
        .unwrap()
        .stash_foreach(|_, _, id| {
            left.push(*id);
            true
        })
        .unwrap();
    assert_eq!(left, vec![other]);
}

#[test]
fn staged_files_of_a_rename_are_both_its_names() {
    let repository = TestRepository::new();
    repository.initial_commit();
    repository.write("NOTES", "Notes.\n");
    repository.stage("NOTES");
    let mut index = repository.repository.index().unwrap();
    index.remove_path(Path::new(README)).unwrap();
    index.write().unwrap();

    let mut staged = repository.handle().get_staged_files().unwrap();
    staged.sort();

    assert_eq!(staged, vec![b"NOTES".to_vec(), b"README".to_vec()]);
}

#[test]
fn unstaged_change_of_a_binary_file_comes_back() {
    let repository = TestRepository::new();
    let base: Vec<u8> = (0..=255u8).collect();
    let mut staged = base.clone();
    staged[10] = 0;
    let mut unstaged = staged.clone();
    unstaged[200] = 0;
    write_file(&repository.path("blob.bin"), &base);
    repository.stage("blob.bin");
    repository.commit("Initial commit.");
    write_file(&repository.path("blob.bin"), &staged);
    repository.stage("blob.bin");
    write_file(&repository.path("blob.bin"), &unstaged);

    let (end, stdout) = repository.run(&["cksum <"]);

    assert!(matches!(end, Ok(RunOutcome::Applied { clean: Step::Done })), "{:?}", end);
    assert!(!stdout.is_empty());
    assert_eq!(read_file(&repository.repository, &repository.path("blob.bin")), unstaged);
    assert_eq!(repository.staged_blob("blob.bin"), staged);
    assert_eq!(repository.stash_count(), 0);
}

/// A host that fails every read and write of the files named, answers the
/// others, and keeps a list of what it was asked.
fn scripted<'a>(
    failing: &'a [MergeFile],
    asked: &'a RefCell<Vec<String>>,
) -> impl Fn(HostRequest) -> HostReply + 'a {
    move |request: HostRequest| -> HostReply {
        let refused = || HostReply::Failed(HostFailure { message: String::from("refused") });
        match request {
            HostRequest::ReadFile { file, directory } => {
                assert!(directory.ends_with(".git"));
                asked.borrow_mut().push(format!("read {:?}", file_name(file)));
                if failing.contains(&file) {
                    refused()
                } else if file == MergeFile::Mode {
                    HostReply::Absent
                } else {
                    HostReply::Contents(format!("{:?}", file).into_bytes())
                }
            }
            HostRequest::WriteFile { file, directory, contents } => {
                assert!(directory.ends_with(".git"));
                asked.borrow_mut().push(format!(
                    "write {:?} {}",
                    file_name(file),
                    String::from_utf8(contents).unwrap()
                ));
                if failing.contains(&file) {
                    refused()
                } else {
                    HostReply::Done
                }
            }
            HostRequest::RemoveFile { relative } => {
                let name = String::from_utf8(relative).unwrap();
                asked.borrow_mut().push(format!("remove {}", name));
                match name.as_str() {
                    "kept" => refused(),
                    "gone" => HostReply::Absent,
                    "odd" => HostReply::Contents(Vec::new()),
                    _ => HostReply::Done,
                }
            }
            HostRequest::RunCommand { .. } => refused(),
        }
    }
}

#[test]
fn merge_files_are_read_in_turn_until_one_fails() {
    let repository = TestRepository::new();
    let mut handle = repository.handle();

    let asked = RefCell::new(Vec::new());
    let status = handle.save_merge_status(&scripted(&[], &asked)).unwrap();
    assert_eq!(status.merge_head, Some(b"Head".to_vec()));
    assert_eq!(status.merge_mode, None);
    assert_eq!(status.merge_msg, Some(b"Msg".to_vec()));
    assert_eq!(
        asked.into_inner(),
        vec!["read \"MERGE_HEAD\"", "read \"MERGE_MODE\"", "read \"MERGE_MSG\""]
    );

    let asked = RefCell::new(Vec::new());
    let failed = handle.save_merge_status(&scripted(&[MergeFile::Mode, MergeFile::Msg], &asked));
    match failed {
        Err(Cause::Read(MergeFile::Mode, why)) => assert_eq!(why.message, "refused"),
        other => panic!("unexpected result {:?}", other),
    }
    assert_eq!(asked.into_inner(), vec!["read \"MERGE_HEAD\"", "read \"MERGE_MODE\""]);
}

#[test]
fn merge_files_are_all_written_before_the_first_failure_is_returned() {
    let repository = TestRepository::new();
    let mut handle = repository.handle();
    let status = offstage::merge::MergeStatus {
        merge_head: Some(b"h".to_vec()),
        merge_mode: None,
        merge_msg: Some(b"m".to_vec()),
    };

    let asked = RefCell::new(Vec::new());
    assert!(handle.restore_merge_status(&status, &scripted(&[], &asked)).is_ok());
    assert_eq!(asked.into_inner(), vec!["write \"MERGE_HEAD\" h", "write \"MERGE_MSG\" m"]);

    let asked = RefCell::new(Vec::new());
    let failed =
        handle.restore_merge_status(&status, &scripted(&[MergeFile::Head, MergeFile::Msg], &asked));
    assert!(matches!(failed, Err(Cause::Write(MergeFile::Head, _))), "{:?}", failed);
    assert_eq!(asked.into_inner(), vec!["write \"MERGE_HEAD\" h", "write \"MERGE_MSG\" m"]);

    let asked = RefCell::new(Vec::new());
    let failed = handle.restore_merge_status(&status, &scripted(&[MergeFile::Msg], &asked));
    assert!(matches!(failed, Err(Cause::Write(MergeFile::Msg, _))), "{:?}", failed);

    let nothing = offstage::merge::MergeStatus { merge_head: None, merge_mode: None, merge_msg: None };
    let asked = RefCell::new(Vec::new());
    assert!(handle
        .restore_merge_status(&nothing, &scripted(&[MergeFile::Head, MergeFile::Mode], &asked))
        .is_ok());
    assert!(asked.into_inner().is_empty());
}

#[test]
fn files_are_deleted_in_turn_until_one_fails() {
    let repository = TestRepository::new();
    let mut handle = repository.handle();
    let asked = RefCell::new(Vec::new());
    let files = vec![b"a".to_vec(), b"c".to_vec(), b"b".to_vec()];
    assert!(handle.delete_files(&files, &scripted(&[], &asked)).is_ok());
    assert_eq!(asked.into_inner(), vec!["remove a", "remove c", "remove b"]);

    let asked = RefCell::new(Vec::new());
    let files = vec![b"a".to_vec(), b"gone".to_vec(), b"b".to_vec()];
    assert!(matches!(
        handle.delete_files(&files, &scripted(&[], &asked)),
        Err(Cause::UnexpectedReply)
    ));
    assert_eq!(asked.into_inner(), vec!["remove a", "remove gone"]);

    let asked = RefCell::new(Vec::new());
    let files = vec![b"a".to_vec(), b"kept".to_vec(), b"b".to_vec()];
    match handle.delete_files(&files, &scripted(&[], &asked)) {
        Err(Cause::Remove(path, why)) => {
            assert_eq!(path, b"kept".to_vec());
            assert_eq!(why.message, "refused");
        }
        other => panic!("unexpected result {:?}", other),
    }
    assert_eq!(asked.into_inner(), vec!["remove a", "remove kept"]);

    let asked = RefCell::new(Vec::new());
    let files = vec![b"odd".to_vec(), b"b".to_vec()];
    assert!(matches!(
        handle.delete_files(&files, &scripted(&[], &asked)),
        Err(Cause::UnexpectedReply)
    ));
    assert_eq!(asked.into_inner(), vec!["remove odd"]);

    let asked = RefCell::new(Vec::new());
    assert!(handle.delete_files(&Vec::new(), &scripted(&[], &asked)).is_ok());
    assert!(asked.into_inner().is_empty());
}

#[test]
fn file_that_the_command_deletes_is_staged_as_deleted() {
    let repository = TestRepository::new();
    repository.initial_commit();
    repository.create_license();
    repository.stage(LICENSE);
    repository.commit("Add a license file.");
    repository.append_line(README, "A new line.");
    repository.stage(README);

    let (end, _) = repository.run(&["rm"]);

    assert!(matches!(end, Ok(RunOutcome::Applied { clean: Step::Done })), "{:?}", end);
    assert!(!repository.path(README).exists());
    let state = repository.state(&[README, LICENSE]);
    assert_eq!(state[0], (String::from(README), None, None, 0));
    assert_eq!(state[1].2, Some(b"Free as in freedom.\n".to_vec()));
}
