//! The patch that carries the changes which are not staged.

use vstd::prelude::*;

verus! {

/// The byte that a line of the patch starts with, for the three kinds of
/// line that carry one: context, addition and deletion.
pub open spec fn sigil(origin: char) -> Option<u8> {
    if origin == '+' {
        Some(0x2bu8)
    } else if origin == '-' {
        Some(0x2du8)
    } else if origin == ' ' {
        Some(0x20u8)
    } else {
        None
    }
}

/// What one line adds to the patch: its sigil where it has one, then its bytes.
pub open spec fn line_bytes(origin: char, content: Seq<u8>) -> Seq<u8> {
    match sigil(origin) {
        Some(byte) => seq![byte] + content,
        None => content,
    }
}

/// Appends one printed line to the patch.
///
/// Headers and binary lines come with their text complete; lines of a hunk
/// come without their sigil, which is put back here.
pub fn append_line(patch: &mut Vec<u8>, origin: char, content: &[u8])
    ensures
        final(patch)@ == old(patch)@ + line_bytes(origin, content@),
{
    if origin == '+' {
        patch.push(0x2bu8);
    } else if origin == '-' {
        patch.push(0x2du8);
    } else if origin == ' ' {
        patch.push(0x20u8);
    }
    let ghost head = patch@;
    let mut i: usize = 0;
    while i < content.len()
        invariant
            i <= content.len(),
            patch@ == head + content@.take(i as int),
        decreases content.len() - i,
    {
        patch.push(content[i]);
        i += 1;
    }
}

} // verus!
