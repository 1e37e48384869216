//! Finding a stash again by its id.

use vstd::prelude::*;
use crate::paths::{path_seq, same_bytes};

verus! {

/// Whether `index` is the first place in `ids` that holds `id`.
pub open spec fn is_first_at(ids: Seq<Seq<u8>>, id: Seq<u8>, index: int) -> bool {
    &&& 0 <= index < ids.len()
    &&& ids[index] == id
    &&& forall|k: int| 0 <= k < index ==> ids[k] != id
}

/// Finds the place in the stash list of the stash with this id; the stash
/// operations take a place, not an id.
///
/// `ids` is the stash list from the newest entry on. The result is the first
/// place that holds `id`, and `None` exactly if no place holds it.
pub fn find_stash_index(ids: &Vec<Vec<u8>>, id: &Vec<u8>) -> (found: Option<usize>)
    ensures
        match found {
            Some(index) => is_first_at(path_seq(ids@), id@, index as int),
            None => !path_seq(ids@).contains(id@),
        },
{
    let mut i: usize = 0;
    while i < ids.len()
        invariant
            i <= ids.len(),
            forall|k: int| 0 <= k < i ==> path_seq(ids@)[k] != id@,
        decreases ids.len() - i,
    {
        if same_bytes(&ids[i], id) {
            return Some(i);
        }
        i += 1;
    }
    None
}

} // verus!
