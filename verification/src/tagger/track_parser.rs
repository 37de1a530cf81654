//! Extraction of a track number from the name of an audio file.

use vstd::prelude::*;
use crate::pattern::{capture, escape, escaped, regex_capture};
use crate::text::{
    chars_of, find_last, last_index_of, lowered, normalize_asian_text, normalized_text,
    same_text, lowercase,
};

verus! {

/// A number of one to three digits at the start, then a separator.
pub const LEADING_NUMBER: &'static str = "^(\\d{1,3})[\\s\\-._]";

/// A number of one to three digits after a hash sign, anywhere.
pub const HASH_NUMBER: &'static str = "#(\\d{1,3})";

/// A known short prefix at the start, a number, then a separator.
pub const PREFIXED_NUMBER: &'static str = "^(?:tr|tk|track|ch|se|bgm)(\\d{1,3})[\\s\\-._]";

/// A disc marker, the disc's number, a separator and the track's number.
pub const DISC_AND_TRACK: &'static str = "(?:disc|cd|track)[\\s\\-._]?(\\d{1,3})[\\s\\-._](\\d{1,3})";

/// A number of one to three digits between two separators.
pub const INTERIOR_NUMBER: &'static str = "[\\s\\-._](\\d{1,3})[\\s\\-._]";

/// A separator and a number of one to three digits at the very end.
pub const TRAILING_NUMBER: &'static str = "[\\s\\-._](\\d{1,3})$";

/// The first run of one to three digits.
pub const DIGIT_RUN: &'static str = "(\\d{1,3})";

/// A number between black lenticular brackets.
pub const LENTICULAR_BRACKETS: &'static str = "\u{3010}(\\d{1,3})\u{3011}";

/// A number between square brackets. Normalization writes the
/// full-width pair as this one, so both forms are matched.
pub const SQUARE_BRACKETS: &'static str = "\\[(\\d{1,3})\\]";

/// A number between tortoise-shell brackets.
pub const TORTOISE_SHELL_BRACKETS: &'static str = "\u{3014}(\\d{1,3})\u{3015}";

/// A number between angle brackets.
pub const ANGLE_BRACKETS: &'static str = "\u{3008}(\\d{1,3})\u{3009}";

/// A number between double angle brackets.
pub const DOUBLE_ANGLE_BRACKETS: &'static str = "\u{300A}(\\d{1,3})\u{300B}";

/// A number between parentheses. Normalization writes the full-width
/// pair as this one, so both forms are matched.
pub const PARENTHESES: &'static str = "\\((\\d{1,3})\\)";

/// The ordinal marker, a number, and one of the four counters for
/// episode, chapter, part and volume.
pub const KANJI_EPISODE: &'static str = "\u{7B2C}(\\d{1,3})[\u{8A71}\u{7AE0}\u{56DE}\u{96C6}]";

/// The smallest track number.
pub const MIN_TRACK: u32 = 1;

/// The largest track number.
pub const MAX_TRACK: u32 = 999;

/// A character from `0` to `9`.
pub open spec fn is_ascii_digit(c: char) -> bool {
    '0' <= c <= '9'
}

/// A non-empty text of ASCII digits.
pub open spec fn is_decimal(digits: Seq<char>) -> bool {
    digits.len() > 0 && forall|i: int| 0 <= i < digits.len() ==> is_ascii_digit(#[trigger] digits[i])
}

/// The number that a text of ASCII digits writes in base ten.
pub open spec fn decimal_value(digits: Seq<char>) -> nat
    decreases digits.len(),
{
    if digits.len() == 0 {
        0
    } else {
        decimal_value(digits.drop_last()) * 10 + (digits.last() as nat - '0' as nat) as nat
    }
}

/// The track number that `digits` stands for: its value, where it is
/// written in ASCII digits and lies between 1 and 999.
pub open spec fn track_value(digits: Seq<char>) -> Option<u32> {
    if is_decimal(digits) && MIN_TRACK <= decimal_value(digits) <= MAX_TRACK {
        Some(decimal_value(digits) as u32)
    } else {
        None
    }
}

/// The track number that a capture stands for, if any.
pub open spec fn accepted(found: Option<Seq<char>>) -> Option<u32> {
    match found {
        Some(digits) => track_value(digits),
        None => None,
    }
}

/// The outcome of one pattern on one text: the accepted value of a group
/// of its leftmost match.
pub open spec fn pattern_outcome(pattern: Seq<char>, text: Seq<char>, group: nat) -> Option<u32> {
    accepted(regex_capture(pattern, text, group))
}

/// `first` if it holds a value, else `second`.
pub open spec fn or_else(first: Option<u32>, second: Option<u32>) -> Option<u32> {
    if first is Some {
        first
    } else {
        second
    }
}

/// The name without its extension: what stands before the last period,
/// or the whole name where it has none.
pub open spec fn strip_extension(name: Seq<char>) -> Seq<char> {
    match last_index_of(name, '.') {
        Some(i) => name.take(i),
        None => name,
    }
}

/// The standard cascade: six patterns in a fixed order of priority, the
/// first accepted number wins.
pub open spec fn standard_cascade(filename: Seq<char>) -> Option<u32> {
    let stem = strip_extension(filename);
    let lower = lowered(stem);
    or_else(
        pattern_outcome(LEADING_NUMBER@, stem, 1),
        or_else(
            pattern_outcome(HASH_NUMBER@, stem, 1),
            or_else(
                pattern_outcome(PREFIXED_NUMBER@, lower, 1),
                or_else(
                    pattern_outcome(DISC_AND_TRACK@, lower, 2),
                    or_else(
                        pattern_outcome(INTERIOR_NUMBER@, stem, 1),
                        pattern_outcome(TRAILING_NUMBER@, stem, 1),
                    ),
                ),
            ),
        ),
    )
}

/// Reads the track number that a captured text stands for.
pub fn accept_capture(found: &Option<String>) -> (r: Option<u32>)
    ensures
        r == accepted(
            match *found {
                Some(s) => Some(s@),
                None => None,
            },
        ),
{
    match found {
        Some(s) => parse_track_value(s.as_str()),
        None => None,
    }
}

/// Reads a text of ASCII digits as a track number between 1 and 999.
pub fn parse_track_value(digits: &str) -> (r: Option<u32>)
    ensures
        r == track_value(digits@),
{
    let v = chars_of(digits);
    if v.len() == 0 {
        return None;
    }
    let mut value: u32 = 0;
    let mut i: usize = 0;
    assert(v@.take(0) =~= Seq::<char>::empty());
    while i < v.len()
        invariant
            v@ == digits@,
            i <= v.len(),
            forall|j: int| 0 <= j < i ==> is_ascii_digit(#[trigger] v@[j]),
            value <= 1000,
            value as nat == if decimal_value(v@.take(i as int)) < 1000 {
                decimal_value(v@.take(i as int))
            } else {
                1000
            },
        decreases v.len() - i,
    {
        let c = v[i];
        if !(c >= '0' && c <= '9') {
            return None;
        }
        let d: u32 = c as u32 - '0' as u32;
        assert(v@.take(i + 1).drop_last() == v@.take(i as int));
        assert(v@.take(i + 1).last() == c);
        let next: u32 = value * 10 + d;
        value = if next > 1000 { 1000 } else { next };
        i += 1;
    }
    assert(v@.take(v@.len() as int) == v@);
    if value >= MIN_TRACK && value <= MAX_TRACK {
        Some(value)
    } else {
        None
    }
}

/// The name without its extension.
pub fn without_extension(filename: &str) -> (stem: &str)
    ensures
        stem@ == strip_extension(filename@),
{
    let v = chars_of(filename);
    match find_last(&v, '.') {
        Some(i) => {
            assert(filename@.subrange(0, i as int) == filename@.take(i as int));
            filename.substring_char(0, i)
        },
        None => filename,
    }
}

/// Applies one pattern to one text and reads the captured number.
fn try_pattern(pattern: &str, text: &str, group: usize) -> (r: Option<u32>)
    ensures
        r == pattern_outcome(pattern@, text@, group as nat),
{
    let found = capture(pattern, text, group);
    accept_capture(&found)
}

/// Parses the track number from a file name, extension included, with
/// the standard cascade. `None` means that the track number is unknown.
pub fn parse_track_number(filename: &str) -> (r: Option<u32>)
    ensures
        r == standard_cascade(filename@),
        r matches Some(n) ==> MIN_TRACK <= n <= MAX_TRACK,
{
    let stem = without_extension(filename);
    let leading = try_pattern(LEADING_NUMBER, stem, 1);
    if leading.is_some() {
        return leading;
    }
    let hash = try_pattern(HASH_NUMBER, stem, 1);
    if hash.is_some() {
        return hash;
    }
    let lower = lowercase(stem);
    let prefixed = try_pattern(PREFIXED_NUMBER, lower.as_str(), 1);
    if prefixed.is_some() {
        return prefixed;
    }
    let disc = try_pattern(DISC_AND_TRACK, lower.as_str(), 2);
    if disc.is_some() {
        return disc;
    }
    let interior = try_pattern(INTERIOR_NUMBER, stem, 1);
    if interior.is_some() {
        return interior;
    }
    try_pattern(TRAILING_NUMBER, stem, 1)
}

/// The parsing choice stored for one work.
#[derive(Debug, Clone)]
pub struct TrackParsingPreference {
    /// Names the strategy; an unknown name selects the standard cascade.
    pub strategy_name: String,
    /// The literal delimiter of the `custom_delimiter` strategy.
    pub custom_delimiter: Option<String>,
    /// Whether Asian text is normalized before matching.
    pub use_asian_conversion: bool,
    /// Tells the Asian bracket styles from the kanji episode styles.
    pub asian_format_type: Option<String>,
}

/// The mathematical content of a `TrackParsingPreference`.
pub struct PreferenceModel {
    pub strategy_name: Seq<char>,
    pub custom_delimiter: Option<Seq<char>>,
    pub use_asian_conversion: bool,
    pub asian_format_type: Option<Seq<char>>,
}

/// The view of an optional string.
pub open spec fn text_of(s: Option<String>) -> Option<Seq<char>> {
    match s {
        Some(t) => Some(t@),
        None => None,
    }
}

impl View for TrackParsingPreference {
    type V = PreferenceModel;

    open spec fn view(&self) -> PreferenceModel {
        PreferenceModel {
            strategy_name: self.strategy_name@,
            custom_delimiter: text_of(self.custom_delimiter),
            use_asian_conversion: self.use_asian_conversion,
            asian_format_type: text_of(self.asian_format_type),
        }
    }
}

/// The closed set of parsing strategies.
#[derive(Debug, Clone, Copy, PartialEq, Eq, Structural)]
pub enum ParsingStrategy {
    /// Normalize the name, then run the standard cascade.
    AsianFullwidth,
    /// A number between Asian brackets, after normalization.
    AsianBrackets,
    /// A number between the ordinal marker and a counter kanji.
    AsianKanjiEpisode,
    /// The first run of digits in the name.
    FirstNumber,
    /// A run of digits right before a literal delimiter.
    CustomDelimiter,
    /// The standard cascade.
    Standard,
}

/// The strategy that a stored name selects. Names that are not known
/// select the standard cascade.
pub open spec fn strategy_named(name: Seq<char>) -> ParsingStrategy {
    if name == "asian_brackets"@ {
        ParsingStrategy::AsianBrackets
    } else if name == "asian_kanji_episode"@ {
        ParsingStrategy::AsianKanjiEpisode
    } else if name == "asian_fullwidth"@ {
        ParsingStrategy::AsianFullwidth
    } else if name == "first_number"@ {
        ParsingStrategy::FirstNumber
    } else if name == "custom_delimiter"@ {
        ParsingStrategy::CustomDelimiter
    } else {
        ParsingStrategy::Standard
    }
}

impl PreferenceModel {
    /// A preference for a custom delimiter carries one, and it is not
    /// empty.
    pub open spec fn is_valid(self) -> bool {
        strategy_named(self.strategy_name) == ParsingStrategy::CustomDelimiter ==> (
        self.custom_delimiter matches Some(d) && d.len() > 0)
    }
}

/// The outcome of the bracket patterns on a normalized text: six pairs
/// in a fixed order, the first accepted number wins. The pairs are
/// lenticular, square, tortoise-shell, angle and double angle brackets
/// and parentheses; square brackets and parentheses stand for their
/// full-width forms too, which normalization has written as these.
pub open spec fn brackets_outcome(text: Seq<char>) -> Option<u32> {
    or_else(
        pattern_outcome(LENTICULAR_BRACKETS@, text, 1),
        or_else(
            pattern_outcome(SQUARE_BRACKETS@, text, 1),
            or_else(
                pattern_outcome(TORTOISE_SHELL_BRACKETS@, text, 1),
                or_else(
                    pattern_outcome(ANGLE_BRACKETS@, text, 1),
                    or_else(
                        pattern_outcome(DOUBLE_ANGLE_BRACKETS@, text, 1),
                        pattern_outcome(PARENTHESES@, text, 1),
                    ),
                ),
            ),
        ),
    )
}

/// The pattern of the custom-delimiter strategy: a run of digits, then
/// the delimiter taken literally.
pub open spec fn custom_pattern(delimiter: Seq<char>) -> Seq<char> {
    DIGIT_RUN@ + escaped(delimiter)
}

/// The outcome of the strategy that a preference names, on one file
/// name.
pub open spec fn strategy_outcome(filename: Seq<char>, pref: PreferenceModel) -> Option<u32> {
    match strategy_named(pref.strategy_name) {
        ParsingStrategy::AsianBrackets => brackets_outcome(normalized_text(filename)),
        ParsingStrategy::AsianKanjiEpisode => pattern_outcome(
            KANJI_EPISODE@,
            normalized_text(filename),
            1,
        ),
        ParsingStrategy::AsianFullwidth => standard_cascade(normalized_text(filename)),
        ParsingStrategy::FirstNumber => pattern_outcome(DIGIT_RUN@, strip_extension(filename), 1),
        ParsingStrategy::CustomDelimiter => match pref.custom_delimiter {
            Some(d) => pattern_outcome(custom_pattern(d), strip_extension(filename), 1),
            None => None,
        },
        ParsingStrategy::Standard => standard_cascade(filename),
    }
}

/// The outcome of parsing with an optional preference: the preferred
/// strategy first, the standard cascade where it finds nothing.
pub open spec fn preferred_outcome(filename: Seq<char>, pref: Option<PreferenceModel>) -> Option<
    u32,
> {
    match pref {
        Some(p) => or_else(strategy_outcome(filename, p), standard_cascade(filename)),
        None => standard_cascade(filename),
    }
}

/// Tells which strategy a stored name selects.
pub fn strategy_of(name: &str) -> (r: ParsingStrategy)
    ensures
        r == strategy_named(name@),
{
    if same_text(name, "asian_brackets") {
        ParsingStrategy::AsianBrackets
    } else if same_text(name, "asian_kanji_episode") {
        ParsingStrategy::AsianKanjiEpisode
    } else if same_text(name, "asian_fullwidth") {
        ParsingStrategy::AsianFullwidth
    } else if same_text(name, "first_number") {
        ParsingStrategy::FirstNumber
    } else if same_text(name, "custom_delimiter") {
        ParsingStrategy::CustomDelimiter
    } else {
        ParsingStrategy::Standard
    }
}

/// Parses the track number from Asian bracket patterns, after
/// normalization of the name.
pub fn parse_asian_brackets(filename: &str) -> (r: Option<u32>)
    ensures
        r == brackets_outcome(normalized_text(filename@)),
        r matches Some(n) ==> MIN_TRACK <= n <= MAX_TRACK,
{
    let normalized = normalize_asian_text(filename);
    let text = normalized.as_str();
    let lenticular = try_pattern(LENTICULAR_BRACKETS, text, 1);
    if lenticular.is_some() {
        return lenticular;
    }
    let square = try_pattern(SQUARE_BRACKETS, text, 1);
    if square.is_some() {
        return square;
    }
    let shell = try_pattern(TORTOISE_SHELL_BRACKETS, text, 1);
    if shell.is_some() {
        return shell;
    }
    let angle = try_pattern(ANGLE_BRACKETS, text, 1);
    if angle.is_some() {
        return angle;
    }
    let double_angle = try_pattern(DOUBLE_ANGLE_BRACKETS, text, 1);
    if double_angle.is_some() {
        return double_angle;
    }
    try_pattern(PARENTHESES, text, 1)
}

/// Parses the track number from a kanji episode marker, after
/// normalization of the name.
pub fn parse_kanji_episode(filename: &str) -> (r: Option<u32>)
    ensures
        r == pattern_outcome(KANJI_EPISODE@, normalized_text(filename@), 1),
        r matches Some(n) ==> MIN_TRACK <= n <= MAX_TRACK,
{
    let normalized = normalize_asian_text(filename);
    try_pattern(KANJI_EPISODE, normalized.as_str(), 1)
}

/// Tries the one strategy that a preference names.
pub fn try_strategy(filename: &str, pref: &TrackParsingPreference) -> (r: Option<u32>)
    ensures
        r == strategy_outcome(filename@, pref@),
        r matches Some(n) ==> MIN_TRACK <= n <= MAX_TRACK,
{
    match strategy_of(pref.strategy_name.as_str()) {
        ParsingStrategy::AsianBrackets => parse_asian_brackets(filename),
        ParsingStrategy::AsianKanjiEpisode => parse_kanji_episode(filename),
        ParsingStrategy::AsianFullwidth => {
            let normalized = normalize_asian_text(filename);
            parse_track_number(normalized.as_str())
        },
        ParsingStrategy::FirstNumber => try_pattern(DIGIT_RUN, without_extension(filename), 1),
        ParsingStrategy::CustomDelimiter => match &pref.custom_delimiter {
            Some(delimiter) => {
                let mut pattern = String::from_str(DIGIT_RUN);
                let literal = escape(delimiter.as_str());
                pattern.append(literal.as_str());
                try_pattern(pattern.as_str(), without_extension(filename), 1)
            },
            None => None,
        },
        ParsingStrategy::Standard => parse_track_number(filename),
    }
}

/// Parses the track number with an optional stored preference: the
/// preferred strategy is tried first, and where it finds nothing the
/// standard cascade decides.
pub fn parse_track_number_with_preference(
    filename: &str,
    preference: Option<&TrackParsingPreference>,
) -> (r: Option<u32>)
    ensures
        r == preferred_outcome(
            filename@,
            match preference {
                Some(p) => Some(p@),
                None => None,
            },
        ),
        r matches Some(n) ==> MIN_TRACK <= n <= MAX_TRACK,
{
    if let Some(pref) = preference {
        let track = try_strategy(filename, pref);
        if track.is_some() {
            return track;
        }
    }
    parse_track_number(filename)
}

/// Priority of the leading number: where the name without its
/// extension begins with one to three digits and a separator, and those
/// digits are a track number, the standard cascade returns that number,
/// whatever the later patterns would find.
pub proof fn leading_number_wins(filename: Seq<char>, digits: Seq<char>)
    requires
        regex_capture(LEADING_NUMBER@, strip_extension(filename), 1) == Some(digits),
        track_value(digits) is Some,
    ensures
        standard_cascade(filename) == track_value(digits),
{
}

/// A track value is never 0 and never 1000 or more.
pub proof fn track_value_is_bounded(digits: Seq<char>)
    ensures
        track_value(digits) matches Some(n) ==> MIN_TRACK <= n <= MAX_TRACK,
{
}

/// Bounds hold for every strategy: neither the standard cascade, nor
/// the strategy that a preference names, nor parsing with a preference
/// returns 0 or a number of 1000 or more.
pub proof fn track_numbers_are_bounded(filename: Seq<char>, pref: PreferenceModel)
    ensures
        standard_cascade(filename) matches Some(n) ==> MIN_TRACK <= n <= MAX_TRACK,
        brackets_outcome(filename) matches Some(n) ==> MIN_TRACK <= n <= MAX_TRACK,
        strategy_outcome(filename, pref) matches Some(n) ==> MIN_TRACK <= n <= MAX_TRACK,
        preferred_outcome(filename, Some(pref)) matches Some(n) ==> MIN_TRACK <= n <= MAX_TRACK,
        preferred_outcome(filename, None) matches Some(n) ==> MIN_TRACK <= n <= MAX_TRACK,
{
}

/// Fallback: where the preferred strategy finds nothing in a name,
/// parsing with the preference gives what the standard cascade gives,
/// a number or none.
pub proof fn failed_preference_falls_back(filename: Seq<char>, pref: PreferenceModel)
    requires
        strategy_outcome(filename, pref) is None,
    ensures
        preferred_outcome(filename, Some(pref)) == standard_cascade(filename),
{
}

/// A preferred strategy that finds a number decides: the standard
/// cascade is not consulted.
pub proof fn successful_preference_decides(filename: Seq<char>, pref: PreferenceModel)
    requires
        strategy_outcome(filename, pref) is Some,
    ensures
        preferred_outcome(filename, Some(pref)) == strategy_outcome(filename, pref),
{
}

} // verus!
