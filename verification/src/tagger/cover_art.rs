//! The cover of a work.

use vstd::prelude::*;
use crate::text::{same_text, texts};

verus! {

/// The name under which the cover of a work is kept in its folder.
pub const COVER_FILE_NAME: &'static str = "folder.jpeg";

/// Checks if the cover is among the entries of a work's folder.
pub fn has_cover_art(root_entries: &[String]) -> (r: bool)
    ensures
        r == texts(root_entries@).contains(COVER_FILE_NAME@),
{
    let mut i: usize = 0;
    while i < root_entries.len()
        invariant
            i <= root_entries.len(),
            forall|j: int| 0 <= j < i ==> texts(root_entries@)[j] != COVER_FILE_NAME@,
        decreases root_entries.len() - i,
    {
        if same_text(root_entries[i].as_str(), COVER_FILE_NAME) {
            assert(texts(root_entries@)[i as int] == COVER_FILE_NAME@);
            return true;
        }
        i += 1;
    }
    false
}

} // verus!
