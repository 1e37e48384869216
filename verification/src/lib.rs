//! Runs a command on the staged files of a Git repository, keeping what is
//! not staged out of the command's way and out of harm.
//!
//! Before the command runs, a snapshot is taken: the whole working
//! directory and index go into a stash, the changes that are not staged in
//! files that are partly staged go into a patch, and those files get their
//! staged content. Where the command succeeds, what it changed is staged
//! and the patch is applied on top. Where it fails, the stash is applied
//! over a hard reset. In both cases the stash is dropped at the end.
//!
//! The repository is reached through `git2` in [`git`]. Files outside the
//! index, and the command itself, are the business of a host that the
//! caller hands in: see [`host`]. Every call into the repository and every
//! request to the host is entered into a journal: ghost state that the
//! contracts speak of when they say which calls and requests a function
//! makes, in which order, and what it makes of their results. Everything
//! that is decided between them is verified, and stated in the contracts of
//! the functions that decide it.

pub mod error;
pub mod host;
pub mod paths;
pub mod delta;
pub mod patch;
pub mod stash;
pub mod git;
pub mod command;
pub mod filter;
pub mod merge;
pub mod snapshot;
pub mod workflow;
