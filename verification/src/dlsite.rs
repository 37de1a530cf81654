//! What the shop tells about a work.

use vstd::prelude::*;

pub mod scrapper;
pub mod types;

verus! {

/// Which facts about a work are fetched and stored.
#[derive(Debug, Clone, Copy, PartialEq, Eq, Structural)]
pub struct DataSelection {
    pub tags: bool,
    pub release_date: bool,
    pub circle: bool,
    pub rating: bool,
    pub cvs: bool,
    pub stars: bool,
    pub cover_link: bool,
}

impl Default for DataSelection {
    /// Nothing is selected.
    fn default() -> (r: Self)
        ensures
            r == (DataSelection {
                tags: false,
                release_date: false,
                circle: false,
                rating: false,
                cvs: false,
                stars: false,
                cover_link: false,
            }),
    {
        DataSelection {
            tags: false,
            release_date: false,
            circle: false,
            rating: false,
            cvs: false,
            stars: false,
            cover_link: false,
        }
    }
}

} // verus!
