//! Regular-expression matching, done by the `regex` crate.

use vstd::prelude::*;

verus! {

/// What capture group `group` holds in the leftmost match of `pattern`
/// in `text`: `None` where the pattern does not compile, where it does
/// not match, or where the group took no part in the match.
pub uninterp spec fn regex_capture(pattern: Seq<char>, text: Seq<char>, group: nat) -> Option<
    Seq<char>,
>;

/// The characters that have a meaning of their own in a pattern.
pub open spec fn is_meta_character(c: char) -> bool {
    c == '\\' || c == '.' || c == '+' || c == '*' || c == '?' || c == '(' || c == ')' || c == '|'
        || c == '[' || c == ']' || c == '{' || c == '}' || c == '^' || c == '$' || c == '#' || c
        == '&' || c == '-' || c == '~'
}

/// `text` with a backslash put before each meta character, so that a
/// pattern made of it matches `text` literally.
pub open spec fn escaped(text: Seq<char>) -> Seq<char>
    decreases text.len(),
{
    if text.len() == 0 {
        Seq::empty()
    } else if is_meta_character(text.last()) {
        escaped(text.drop_last()).push('\\').push(text.last())
    } else {
        escaped(text.drop_last()).push(text.last())
    }
}

/// Compiles `pattern` with `Regex::new`, searches `text` with
/// `Regex::captures` and reads one group with `Captures::get`. The
/// outcome depends on the three arguments alone; a pattern that does not
/// compile counts as no match.
#[verifier::external_body]
pub(crate) fn capture(pattern: &str, text: &str, group: usize) -> (r: Option<String>)
    ensures
        match r {
            Some(s) => regex_capture(pattern@, text@, group as nat) == Some(s@),
            None => regex_capture(pattern@, text@, group as nat) is None,
        },
{
    let re = regex::Regex::new(pattern).ok()?;
    let caps = re.captures(text)?;
    let found = caps.get(group)?;
    Some(found.as_str().to_string())
}

/// Calls `regex::escape`, which copies `text` and puts a backslash
/// before each meta character.
#[verifier::external_body]
pub(crate) fn escape(text: &str) -> (r: String)
    ensures
        r@ == escaped(text@),
{
    regex::escape(text)
}

} // verus!
