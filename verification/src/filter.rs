//! The glob that narrows the staged files down.

use vstd::prelude::*;
use crate::error::WorkflowError;
use crate::paths::{copy_bytes, copy_paths, path_seq};

verus! {

/// Whether `globset` takes the pattern for a glob: `Glob::new` parses it,
/// and `GlobSetBuilder::build` compiles what was parsed.
pub uninterp spec fn glob_is_valid(pattern: Seq<char>) -> bool;

/// Whether the glob that `globset` makes of the pattern matches the path,
/// as `GlobSet::is_match_candidate` tells it.
pub uninterp spec fn glob_matches(pattern: Seq<char>, path: Seq<u8>) -> bool;

/// The paths whose flag is set, in their order. A path without a flag is
/// left out.
pub open spec fn kept(paths: Seq<Seq<u8>>, flags: Seq<bool>) -> Seq<Seq<u8>>
    decreases paths.len(),
{
    if paths.len() == 0 {
        Seq::empty()
    } else {
        let last = paths.len() - 1;
        kept(paths.drop_last(), flags) + if last < flags.len() && flags[last] {
            seq![paths[last]]
        } else {
            Seq::empty()
        }
    }
}

/// The flags of a pattern on a list of paths: for each path, whether the
/// pattern matches it.
pub open spec fn match_flags(pattern: Seq<char>, paths: Seq<Seq<u8>>) -> Seq<bool> {
    Seq::new(paths.len(), |i: int| glob_matches(pattern, paths[i]))
}

/// `Glob::new`, `GlobSetBuilder::add` and `build`, then
/// `GlobSet::is_match_candidate` on the `Candidate::from_bytes` of each
/// path: the error's text where the pattern is refused, else one flag for
/// each path.
#[verifier::external_body]
fn match_each(pattern: &str, paths: &Vec<Vec<u8>>) -> (flags: Result<Vec<bool>, String>)
    ensures
        flags is Ok <==> glob_is_valid(pattern@),
        flags matches Ok(found) ==> found.len() == paths.len(),
        flags matches Ok(found) ==> forall|i: int|
            0 <= i < paths.len() ==> found@[i] == glob_matches(pattern@, #[trigger] paths@[i]@),
{
    let glob = globset::Glob::new(pattern).map_err(|error| error.to_string())?;
    let mut builder = globset::GlobSetBuilder::new();
    let set = builder.add(glob).build().map_err(|error| error.to_string())?;
    Ok(paths.iter().map(|path| {
        set.is_match_candidate(&globset::Candidate::from_bytes(path))
    }).collect())
}

/// Keeps the paths whose flag is set.
pub fn keep_flagged(paths: &Vec<Vec<u8>>, flags: &Vec<bool>) -> (some: Vec<Vec<u8>>)
    ensures
        path_seq(some@) == kept(path_seq(paths@), flags@),
{
    let mut some: Vec<Vec<u8>> = Vec::new();
    let mut i: usize = 0;
    while i < paths.len()
        invariant
            i <= paths.len(),
            path_seq(some@) == kept(path_seq(paths@).take(i as int), flags@),
        decreases paths.len() - i,
    {
        assert(path_seq(paths@).take(i as int + 1).drop_last() =~= path_seq(paths@).take(
            i as int,
        ));
        if i < flags.len() && flags[i] {
            some.push(copy_bytes(&paths[i]));
        }
        i += 1;
    }
    assert(path_seq(paths@).take(paths@.len() as int) =~= path_seq(paths@));
    some
}

/// What the filter leaves of the staged files.
pub open spec fn filtered(filter: Option<Seq<char>>, staged: Seq<Seq<u8>>) -> Option<
    Seq<Seq<u8>>,
> {
    match filter {
        None => Some(staged),
        Some(pattern) => if glob_is_valid(pattern) {
            Some(kept(staged, match_flags(pattern, staged)))
        } else {
            None
        },
    }
}

/// The text of an optional string.
pub open spec fn text_of(filter: Option<String>) -> Option<Seq<char>> {
    match filter {
        Some(pattern) => Some(pattern@),
        None => None,
    }
}

/// Narrows the staged files down to those that the glob matches. Without a
/// filter every file stays; a filter that is no valid glob is an error.
pub fn filter_staged(staged_files: &Vec<Vec<u8>>, filter: &Option<String>) -> (left: Result<
    Vec<Vec<u8>>,
    WorkflowError,
>)
    ensures
        match filtered(text_of(*filter), path_seq(staged_files@)) {
            Some(paths) => left matches Ok(files) && path_seq(files@) == paths,
            None => left matches Err(error) && error is Filter,
        },
{
    match filter {
        None => Ok(copy_paths(staged_files)),
        Some(pattern) => match match_each(pattern.as_str(), staged_files) {
            Ok(flags) => {
                assert(flags@ =~= match_flags(pattern@, path_seq(staged_files@)));
                Ok(keep_flagged(staged_files, &flags))
            },
            Err(message) => Err(WorkflowError::Filter(message)),
        },
    }
}

} // verus!
