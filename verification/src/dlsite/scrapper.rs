//! What is read from a product's page.

use vstd::prelude::*;
use crate::text::{before_first, cut_before, trim, trimmed_form};

verus! {

/// The facts read from the page of a product.
#[derive(Debug, Clone)]
pub struct DlSiteProductScrapResult {
    /// The shop's tags.
    pub genre: Vec<String>,
    /// The voice actors.
    pub cvs: Vec<String>,
    /// The circle's name: the Japanese one where there is one, else
    /// the English one.
    pub circle_name: Option<String>,
    /// The circle's English name.
    pub circle_name_en: Option<String>,
    /// The circle's Japanese name.
    pub circle_name_jp: Option<String>,
}

/// The words that follow a circle's name in the title of its page.
pub const PROFILE_SUFFIX_EN: &'static str = " Circle Profile";

/// The same words on the Japanese page.
pub const PROFILE_SUFFIX_JP: &'static str = " \u{30B5}\u{30FC}\u{30AF}\u{30EB}\u{30D7}\u{30ED}\u{30D5}\u{30A3}\u{30FC}\u{30EB}";

/// The full-width parenthesis that opens the reading of a name.
pub const READING_OPENS: &'static str = "\u{FF08}";

/// The circle's name in the title of its page: what stands before the
/// profile words and before the reading in full-width parentheses,
/// without white space around it.
pub open spec fn circle_name_in(title: Seq<char>) -> Seq<char> {
    trimmed_form(
        before_first(
            before_first(before_first(trimmed_form(title), PROFILE_SUFFIX_EN@), PROFILE_SUFFIX_JP@),
            READING_OPENS@,
        ),
    )
}

/// Parses the circle's name from the title of its page.
pub fn parse_circle_name_from_title(title: &str) -> (r: String)
    ensures
        r@ == circle_name_in(title@),
{
    let title = trim(title);
    let name = cut_before(title, PROFILE_SUFFIX_EN);
    let name = cut_before(name.as_str(), PROFILE_SUFFIX_JP);
    let name = cut_before(name.as_str(), READING_OPENS);
    String::from_str(trim(name.as_str()))
}

} // verus!
