//! File deltas of a diff, and the path lists that the snapshot is built from.

use vstd::prelude::*;
use crate::paths::{all_nul_free, bytes_of, copy_bytes, nul_free, path_seq, same_bytes};

verus! {

/// What happened to a file between the two sides of a diff.
#[derive(Clone, Copy, Debug, PartialEq, Eq, Structural)]
pub enum DeltaStatus {
    Unmodified,
    Added,
    Deleted,
    Modified,
    Renamed,
    Copied,
    Ignored,
    Untracked,
    Typechange,
    Unreadable,
    Conflicted,
}

/// One entry of a diff: its status and the path on either side.
///
/// A side without a path holds `None`.
#[derive(Debug)]
pub struct FileDelta {
    pub status: DeltaStatus,
    pub old_path: Option<Vec<u8>>,
    pub new_path: Option<Vec<u8>>,
}

/// A delta as contracts see it: the paths as byte strings.
pub struct FileDeltaView {
    pub status: DeltaStatus,
    pub old_path: Option<Seq<u8>>,
    pub new_path: Option<Seq<u8>>,
}

impl View for FileDelta {
    type V = FileDeltaView;

    open spec fn view(&self) -> FileDeltaView {
        FileDeltaView {
            status: self.status,
            old_path: bytes_of(self.old_path),
            new_path: bytes_of(self.new_path),
        }
    }
}

/// The deltas that a list stands for.
pub open spec fn delta_seq(deltas: Seq<FileDelta>) -> Seq<FileDeltaView> {
    deltas.map_values(|d: FileDelta| d@)
}

/// A path as a list: one element if there is a path, none if not.
pub open spec fn present(path: Option<Seq<u8>>) -> Seq<Seq<u8>> {
    match path {
        Some(p) => seq![p],
        None => Seq::empty(),
    }
}

/// The paths that one delta names: the old one, then the new one where it
/// differs from the old one.
pub open spec fn both_sides_once(delta: FileDeltaView) -> Seq<Seq<u8>> {
    if delta.old_path == delta.new_path {
        present(delta.old_path)
    } else {
        present(delta.old_path) + present(delta.new_path)
    }
}

/// The paths that one delta contributes to the unstaged list: both sides
/// where the old side counts, else only the new one.
pub open spec fn sides(delta: FileDeltaView, include_from_files: bool) -> Seq<Seq<u8>> {
    if include_from_files {
        present(delta.old_path) + present(delta.new_path)
    } else {
        present(delta.new_path)
    }
}

/// The old path of a deleted file, nothing for any other delta.
pub open spec fn deleted_side(delta: FileDeltaView) -> Seq<Seq<u8>> {
    if delta.status == DeltaStatus::Deleted {
        present(delta.old_path)
    } else {
        Seq::empty()
    }
}

/// The paths of a diff between HEAD and the index, in the diff's order.
pub open spec fn changed_paths_of(deltas: Seq<FileDeltaView>) -> Seq<Seq<u8>>
    decreases deltas.len(),
{
    if deltas.len() == 0 {
        Seq::empty()
    } else {
        changed_paths_of(deltas.drop_last()) + both_sides_once(deltas.last())
    }
}

/// The paths of a diff between the index and the working directory, in the
/// diff's order.
pub open spec fn touched_paths_of(deltas: Seq<FileDeltaView>, include_from_files: bool) -> Seq<
    Seq<u8>,
>
    decreases deltas.len(),
{
    if deltas.len() == 0 {
        Seq::empty()
    } else {
        touched_paths_of(deltas.drop_last(), include_from_files) + sides(
            deltas.last(),
            include_from_files,
        )
    }
}

/// The paths that a diff reports as deleted, in the diff's order.
pub open spec fn deleted_paths_of(deltas: Seq<FileDeltaView>) -> Seq<Seq<u8>>
    decreases deltas.len(),
{
    if deltas.len() == 0 {
        Seq::empty()
    } else {
        deleted_paths_of(deltas.drop_last()) + deleted_side(deltas.last())
    }
}

/// No path of any delta holds a zero byte.
pub open spec fn deltas_nul_free(deltas: Seq<FileDeltaView>) -> bool {
    forall|i: int|
        0 <= i < deltas.len() ==> {
            &&& (#[trigger] deltas[i]).old_path matches Some(p) ==> nul_free(p)
            &&& deltas[i].new_path matches Some(p) ==> nul_free(p)
        }
}

/// Paths without zero bytes give staged paths without zero bytes.
pub proof fn changed_paths_nul_free(deltas: Seq<FileDeltaView>)
    requires
        deltas_nul_free(deltas),
    ensures
        all_nul_free(changed_paths_of(deltas)),
    decreases deltas.len(),
{
    if deltas.len() > 0 {
        let front = deltas.drop_last();
        assert forall|i: int| 0 <= i < front.len() implies {
            &&& (#[trigger] front[i]).old_path matches Some(p) ==> nul_free(p)
            &&& front[i].new_path matches Some(p) ==> nul_free(p)
        } by {}
        changed_paths_nul_free(front);
    }
}

/// Whether two optional paths are the same.
pub fn same_path(a: &Option<Vec<u8>>, b: &Option<Vec<u8>>) -> (same: bool)
    ensures
        same == (bytes_of(*a) == bytes_of(*b)),
{
    match (a, b) {
        (Some(x), Some(y)) => same_bytes(x, y),
        (None, None) => true,
        _ => false,
    }
}

/// Appends a copy of the path to the list, if there is one.
fn push_present(paths: &mut Vec<Vec<u8>>, path: &Option<Vec<u8>>)
    ensures
        path_seq(final(paths)@) == path_seq(old(paths)@) + present(bytes_of(*path)),
{
    match path {
        Some(p) => {
            paths.push(copy_bytes(p));
        },
        None => {},
    }
}

/// The staged paths: for each delta its old path and, where it differs, its
/// new path; sides without a path are skipped.
pub fn changed_paths(deltas: &Vec<FileDelta>) -> (paths: Vec<Vec<u8>>)
    ensures
        path_seq(paths@) == changed_paths_of(delta_seq(deltas@)),
{
    let mut paths: Vec<Vec<u8>> = Vec::new();
    let mut i: usize = 0;
    while i < deltas.len()
        invariant
            i <= deltas.len(),
            path_seq(paths@) == changed_paths_of(delta_seq(deltas@).take(i as int)),
        decreases deltas.len() - i,
    {
        let delta = &deltas[i];
        assert(delta_seq(deltas@).take(i as int + 1).drop_last() =~= delta_seq(deltas@).take(
            i as int,
        ));
        push_present(&mut paths, &delta.old_path);
        if !same_path(&delta.old_path, &delta.new_path) {
            push_present(&mut paths, &delta.new_path);
        }
        i += 1;
    }
    assert(delta_seq(deltas@).take(deltas@.len() as int) =~= delta_seq(deltas@));
    paths
}

/// The paths with changes that are not staged: for each delta its new path,
/// preceded by its old path where `include_from_files` is set.
pub fn touched_paths(deltas: &Vec<FileDelta>, include_from_files: bool) -> (paths: Vec<Vec<u8>>)
    ensures
        path_seq(paths@) == touched_paths_of(delta_seq(deltas@), include_from_files),
{
    let mut paths: Vec<Vec<u8>> = Vec::new();
    let mut i: usize = 0;
    while i < deltas.len()
        invariant
            i <= deltas.len(),
            path_seq(paths@) == touched_paths_of(
                delta_seq(deltas@).take(i as int),
                include_from_files,
            ),
        decreases deltas.len() - i,
    {
        let delta = &deltas[i];
        assert(delta_seq(deltas@).take(i as int + 1).drop_last() =~= delta_seq(deltas@).take(
            i as int,
        ));
        if include_from_files {
            push_present(&mut paths, &delta.old_path);
        }
        push_present(&mut paths, &delta.new_path);
        i += 1;
    }
    assert(delta_seq(deltas@).take(deltas@.len() as int) =~= delta_seq(deltas@));
    paths
}

/// The files that are tracked but gone from the working directory: the old
/// path of every delta whose status is `Deleted`.
pub fn deleted_paths(deltas: &Vec<FileDelta>) -> (paths: Vec<Vec<u8>>)
    ensures
        path_seq(paths@) == deleted_paths_of(delta_seq(deltas@)),
{
    let mut paths: Vec<Vec<u8>> = Vec::new();
    let mut i: usize = 0;
    while i < deltas.len()
        invariant
            i <= deltas.len(),
            path_seq(paths@) == deleted_paths_of(delta_seq(deltas@).take(i as int)),
        decreases deltas.len() - i,
    {
        let delta = &deltas[i];
        assert(delta_seq(deltas@).take(i as int + 1).drop_last() =~= delta_seq(deltas@).take(
            i as int,
        ));
        if delta.status == DeltaStatus::Deleted {
            push_present(&mut paths, &delta.old_path);
        }
        i += 1;
    }
    assert(delta_seq(deltas@).take(deltas@.len() as int) =~= delta_seq(deltas@));
    paths
}

} // verus!
