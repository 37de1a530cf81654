//! The description of a work as it is kept locally.

use vstd::prelude::*;

verus! {

/// The age rating of a work.
#[derive(Debug, Clone, Copy, PartialEq, Eq, Structural)]
pub enum AgeCategory {
    Other,
    AllAge,
    R15,
    R18,
}

/// The rating that a number of the shop stands for: 1 is all ages, 3 is
/// adults only, and any other number is unknown.
pub open spec fn age_category_of(i: u32) -> AgeCategory {
    if i == 1 {
        AgeCategory::AllAge
    } else if i == 3 {
        AgeCategory::R18
    } else {
        AgeCategory::Other
    }
}

impl AgeCategory {
    /// Reads the rating from the shop's number.
    pub fn from_int(i: u32) -> (r: Self)
        ensures
            r == age_category_of(i),
    {
        if i == 1 {
            AgeCategory::AllAge
        } else if i == 3 {
            AgeCategory::R18
        } else {
            AgeCategory::Other
        }
    }
}

impl Default for AgeCategory {
    /// A work is for adults unless the shop says otherwise.
    fn default() -> (r: Self)
        ensures
            r == AgeCategory::R18,
    {
        AgeCategory::R18
    }
}

/// A work as the database describes it.
#[derive(Debug, Clone)]
pub struct Work {
    pub rjcode: String,
    pub name: String,
    pub age_category: AgeCategory,
    pub circle_name: String,
    pub circle_code: String,
    pub image_link: String,
    pub release_date: String,
    pub seiyuu: Vec<String>,
    pub tags: Vec<String>,
}

} // verus!
