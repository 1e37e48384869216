//! Repository-relative paths, held as the raw bytes the index stores.

use vstd::prelude::*;

verus! {

/// The byte strings that a list of paths stands for.
pub open spec fn path_seq(paths: Seq<Vec<u8>>) -> Seq<Seq<u8>> {
    paths.map_values(|p: Vec<u8>| p@)
}

/// The bytes of a byte string that may be missing.
pub open spec fn bytes_of(bytes: Option<Vec<u8>>) -> Option<Seq<u8>> {
    match bytes {
        Some(held) => Some(held@),
        None => None,
    }
}

/// A path that can be handed to the index as a C string: it holds no zero byte.
pub open spec fn nul_free(path: Seq<u8>) -> bool {
    forall|i: int| 0 <= i < path.len() ==> path[i] != 0u8
}

/// Every path of the list is free of zero bytes.
pub open spec fn all_nul_free(paths: Seq<Seq<u8>>) -> bool {
    forall|i: int| 0 <= i < paths.len() ==> nul_free(#[trigger] paths[i])
}

/// Compares two byte strings.
pub fn same_bytes(a: &Vec<u8>, b: &Vec<u8>) -> (same: bool)
    ensures
        same == (a@ == b@),
{
    if a.len() != b.len() {
        return false;
    }
    let mut i: usize = 0;
    while i < a.len()
        invariant
            a.len() == b.len(),
            i <= a.len(),
            forall|k: int| 0 <= k < i ==> a@[k] == b@[k],
        decreases a.len() - i,
    {
        if a[i] != b[i] {
            return false;
        }
        i += 1;
    }
    assert(a@ =~= b@);
    true
}

/// Whether `path` occurs in `paths`.
pub fn contains_path(paths: &Vec<Vec<u8>>, path: &Vec<u8>) -> (found: bool)
    ensures
        found == path_seq(paths@).contains(path@),
{
    let mut i: usize = 0;
    while i < paths.len()
        invariant
            i <= paths.len(),
            forall|k: int| 0 <= k < i ==> path_seq(paths@)[k] != path@,
        decreases paths.len() - i,
    {
        if same_bytes(&paths[i], path) {
            assert(path_seq(paths@)[i as int] == path@);
            return true;
        }
        i += 1;
    }
    false
}

/// Copies a byte string.
pub fn copy_bytes(bytes: &Vec<u8>) -> (copy: Vec<u8>)
    ensures
        copy@ == bytes@,
{
    let mut copy: Vec<u8> = Vec::new();
    let mut i: usize = 0;
    while i < bytes.len()
        invariant
            i <= bytes.len(),
            copy@ == bytes@.take(i as int),
        decreases bytes.len() - i,
    {
        copy.push(bytes[i]);
        i += 1;
    }
    copy
}

/// Copies a list of paths.
pub fn copy_paths(paths: &Vec<Vec<u8>>) -> (copy: Vec<Vec<u8>>)
    ensures
        path_seq(copy@) == path_seq(paths@),
{
    let mut copy: Vec<Vec<u8>> = Vec::new();
    let mut i: usize = 0;
    while i < paths.len()
        invariant
            i <= paths.len(),
            copy.len() == i,
            forall|k: int| 0 <= k < i ==> copy@[k]@ == paths@[k]@,
        decreases paths.len() - i,
    {
        copy.push(copy_bytes(&paths[i]));
        i += 1;
    }
    copy
}

/// The paths that occur in both lists, each once.
///
/// The two lists are read as sets: the result holds no path twice, and a
/// path is in it exactly if both lists hold it.
pub fn common_paths(one: &Vec<Vec<u8>>, two: &Vec<Vec<u8>>) -> (both: Vec<Vec<u8>>)
    ensures
        path_seq(both@).no_duplicates(),
        path_seq(both@).to_set() == path_seq(one@).to_set().intersect(path_seq(two@).to_set()),
{
    let mut both: Vec<Vec<u8>> = Vec::new();
    let mut i: usize = 0;
    while i < one.len()
        invariant
            i <= one.len(),
            path_seq(both@).no_duplicates(),
            forall|p: Seq<u8>| #[trigger]
                path_seq(both@).contains(p) <==> (path_seq(one@).take(i as int).contains(p)
                    && path_seq(two@).contains(p)),
        decreases one.len() - i,
    {
        let path = &one[i];
        let ghost before = path_seq(both@);
        let ghost seen = path_seq(one@).take(i as int);
        let ghost next = path_seq(one@).take(i as int + 1);
        assert forall|p: Seq<u8>| next.contains(p) <==> (seen.contains(p) || p == path@) by {
            if p == path@ {
                assert(next[next.len() - 1] == p);
            }
        }
        if contains_path(two, path) && !contains_path(&both, path) {
            both.push(copy_bytes(path));
            let ghost after = path_seq(both@);
            assert(after =~= before.push(path@));
            assert forall|p: Seq<u8>| after.contains(p) <==> (before.contains(p) || p == path@) by {
                if before.contains(p) {
                    let k = choose|k: int| 0 <= k < before.len() && before[k] == p;
                    assert(after[k] == p);
                }
                if p == path@ {
                    assert(after[after.len() - 1] == p);
                }
            }
        }
        i += 1;
    }
    proof {
        assert(path_seq(one@).take(one@.len() as int) =~= path_seq(one@));
        let lhs = path_seq(both@).to_set();
        let rhs = path_seq(one@).to_set().intersect(path_seq(two@).to_set());
        assert forall|p: Seq<u8>| lhs.contains(p) <==> rhs.contains(p) by {}
    }
    both
}

} // verus!
