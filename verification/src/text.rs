//! Character-level helpers shared by the parsers: conversion between
//! strings and character vectors, case folding, and canonicalization of
//! Asian text.

use vstd::prelude::*;
use unicode_normalization::UnicodeNormalization;

verus! {

/// The NFKC form of a text, as `unicode_normalization` computes it.
pub uninterp spec fn nfkc_form(text: Seq<char>) -> Seq<char>;

/// The lowercase form of a text, as `str::to_lowercase` computes it.
pub uninterp spec fn lowercase_form(text: Seq<char>) -> Seq<char>;

/// A text without the white space at its two ends, as `str::trim`
/// computes it.
pub uninterp spec fn trimmed_form(text: Seq<char>) -> Seq<char>;

/// Every character lies in the 7-bit ASCII range.
pub open spec fn is_ascii_text(text: Seq<char>) -> bool {
    forall|i: int| 0 <= i < text.len() ==> (#[trigger] text[i]) <= '\x7f'
}

/// An ASCII capital becomes its small letter; any other character
/// stays.
pub open spec fn ascii_lower(c: char) -> char {
    if 'A' <= c <= 'Z' {
        (c as u8 + 32) as char
    } else {
        c
    }
}

/// `ascii_lower` applied to every character.
pub open spec fn ascii_lowered(text: Seq<char>) -> Seq<char> {
    Seq::new(text.len(), |i: int| ascii_lower(text[i]))
}

/// The lowercase form of a text. In ASCII text the capitals become
/// small letters and nothing else changes; any other text is lowered as
/// `str::to_lowercase` does it.
pub open spec fn lowered(text: Seq<char>) -> Seq<char> {
    if is_ascii_text(text) {
        ascii_lowered(text)
    } else {
        lowercase_form(text)
    }
}

/// The NFKC form of a text. ASCII text is in that form already; any
/// other text is normalized as `unicode_normalization` does it.
pub open spec fn nfkc_text(text: Seq<char>) -> Seq<char> {
    if is_ascii_text(text) {
        text
    } else {
        nfkc_form(text)
    }
}

/// `text` begins with `prefix`.
pub open spec fn has_prefix(text: Seq<char>, prefix: Seq<char>) -> bool {
    prefix.len() <= text.len() && text.take(prefix.len() as int) == prefix
}

/// The views of a sequence of strings.
pub open spec fn texts(strings: Seq<String>) -> Seq<Seq<char>> {
    strings.map_values(|s: String| s@)
}

/// A full-width digit (U+FF10 to U+FF19).
pub open spec fn is_fullwidth_digit(c: char) -> bool {
    '\u{FF10}' <= c <= '\u{FF19}'
}

/// A full-width digit becomes its ASCII digit; any other character stays.
pub open spec fn fold_digit(c: char) -> char {
    if is_fullwidth_digit(c) {
        ((c as u32 - 0xFF10) + 0x30) as char
    } else {
        c
    }
}

/// `fold_digit` applied to every character.
pub open spec fn fold_digits(text: Seq<char>) -> Seq<char> {
    Seq::new(text.len(), |i: int| fold_digit(text[i]))
}

/// The canonical form used before matching Asian file names: NFKC, then
/// any full-width digit that is left mapped to ASCII.
pub open spec fn normalized_text(text: Seq<char>) -> Seq<char> {
    fold_digits(nfkc_text(text))
}

/// Normalizing a text that is already ASCII changes nothing.
pub proof fn ascii_text_is_normalized(text: Seq<char>)
    requires
        is_ascii_text(text),
    ensures
        normalized_text(text) == text,
{
    assert(fold_digits(text) =~= text);
}

/// `needle` stands in `text` at the index `i`.
pub open spec fn occurs_at(text: Seq<char>, needle: Seq<char>, i: int) -> bool {
    0 <= i && i + needle.len() <= text.len() && text.subrange(i, i + needle.len()) == needle
}

/// The first index at or after `from` at which `needle` stands in
/// `text`, if there is one.
pub open spec fn first_occurrence(text: Seq<char>, needle: Seq<char>, from: int) -> Option<int>
    decreases text.len() + 1 - from,
{
    if from < 0 || from + needle.len() > text.len() {
        None
    } else if occurs_at(text, needle, from) {
        Some(from)
    } else {
        first_occurrence(text, needle, from + 1)
    }
}

/// `first_occurrence` gives an index at which `needle` stands, and
/// `needle` stands at no index between `from` and that one; it gives
/// nothing only where `needle` stands at no index from `from` on.
pub proof fn first_occurrence_is_first(text: Seq<char>, needle: Seq<char>, from: int)
    requires
        0 <= from,
    ensures
        match first_occurrence(text, needle, from) {
            Some(i) => from <= i && occurs_at(text, needle, i) && forall|j: int|
                from <= j < i ==> !occurs_at(text, needle, j),
            None => forall|j: int| from <= j ==> !occurs_at(text, needle, j),
        },
    decreases text.len() + 1 - from,
{
    if from + needle.len() <= text.len() && !occurs_at(text, needle, from) {
        first_occurrence_is_first(text, needle, from + 1);
    }
}

/// `needle` occurs in `text`.
pub open spec fn contains_text(text: Seq<char>, needle: Seq<char>) -> bool {
    first_occurrence(text, needle, 0) is Some
}

/// What stands in `text` before the first occurrence of `needle`; the
/// whole text where `needle` does not occur.
pub open spec fn before_first(text: Seq<char>, needle: Seq<char>) -> Seq<char> {
    match first_occurrence(text, needle, 0) {
        Some(i) => text.take(i),
        None => text,
    }
}

/// The index of the last occurrence of `c` in `text`, if there is one.
pub open spec fn last_index_of(text: Seq<char>, c: char) -> Option<int>
    decreases text.len(),
{
    if text.len() == 0 {
        None
    } else if text.last() == c {
        Some(text.len() - 1)
    } else {
        last_index_of(text.drop_last(), c)
    }
}

/// `last_index_of` gives an index that holds `c`, and `c` does not occur
/// after it; it gives nothing only where `c` does not occur at all.
pub proof fn last_index_of_is_last(text: Seq<char>, c: char)
    ensures
        match last_index_of(text, c) {
            Some(i) => 0 <= i < text.len() && text[i] == c && forall|j: int|
                i < j < text.len() ==> text[j] != c,
            None => forall|j: int| 0 <= j < text.len() ==> text[j] != c,
        },
    decreases text.len(),
{
    if text.len() > 0 && text.last() != c {
        let front = text.drop_last();
        last_index_of_is_last(front, c);
        assert(forall|j: int| 0 <= j < front.len() ==> front[j] == text[j]);
        match last_index_of(front, c) {
            Some(i) => {
                assert forall|j: int| i < j < text.len() implies text[j] != c by {
                    if j < front.len() {
                        assert(front[j] != c);
                    }
                }
            },
            None => {
                assert forall|j: int| 0 <= j < text.len() implies text[j] != c by {
                    if j < front.len() {
                        assert(front[j] != c);
                    }
                }
            },
        }
    }
}

/// Appends one character to a string (`String::push`).
#[verifier::external_body]
pub(crate) fn push_char(s: &mut String, c: char)
    ensures
        final(s)@ == old(s)@.push(c),
{
    s.push(c)
}

/// Calls `UnicodeNormalization::nfkc` on `text` and collects the
/// characters it yields. The result is the NFKC form of the text; the
/// crate leaves 7-bit ASCII as it is, so an ASCII text comes back
/// unchanged.
#[verifier::external_body]
pub(crate) fn nfkc(text: &str) -> (r: String)
    ensures
        r@ == nfkc_form(text@),
        is_ascii_text(text@) ==> r@ == text@,
{
    text.nfkc().collect::<String>()
}

/// Calls `str::to_lowercase`. The result is the lowercase form of the
/// text; the lower-casing of ASCII characters is the ASCII one, so in
/// an ASCII text `A` to `Z` become `a` to `z` and nothing else changes.
#[verifier::external_body]
fn to_lowercase(text: &str) -> (r: String)
    ensures
        r@ == lowercase_form(text@),
        is_ascii_text(text@) ==> r@ == ascii_lowered(text@),
{
    text.to_lowercase()
}

/// The lowercase form of a text.
pub fn lowercase(text: &str) -> (r: String)
    ensures
        r@ == lowered(text@),
{
    to_lowercase(text)
}

/// Calls `str::trim`.
#[verifier::external_body]
pub(crate) fn trim(text: &str) -> (r: &str)
    ensures
        r@ == trimmed_form(text@),
{
    text.trim()
}

/// The characters of `s`, in order.
pub fn chars_of(s: &str) -> (v: Vec<char>)
    ensures
        v@ == s@,
{
    let mut v: Vec<char> = Vec::new();
    for c in it: s.chars()
        invariant
            it.seq() == s@,
            v@ == s@.take(it.index() as int),
    {
        v.push(c);
        assert(s@.take(it.index() + 1) == s@.take(it.index() as int).push(s@[it.index() as int]));
    }
    assert(s@.take(s@.len() as int) == s@);
    v
}

/// The string made of the characters `v[from..to]`.
pub fn string_of_range(v: &Vec<char>, from: usize, to: usize) -> (s: String)
    requires
        from <= to <= v.len(),
    ensures
        s@ == v@.subrange(from as int, to as int),
{
    let mut s = String::new();
    let mut i: usize = from;
    while i < to
        invariant
            from <= i <= to <= v.len(),
            s@ == v@.subrange(from as int, i as int),
        decreases to - i,
    {
        push_char(&mut s, v[i]);
        assert(v@.subrange(from as int, i + 1) == v@.subrange(from as int, i as int).push(v@[i as int]));
        i += 1;
    }
    s
}

/// The string made of the characters of `v`.
pub fn string_of(v: &Vec<char>) -> (s: String)
    ensures
        s@ == v@,
{
    assert(v@.subrange(0, v@.len() as int) == v@);
    string_of_range(v, 0, v.len())
}

/// Whether two strings hold the same characters.
pub fn same_text(a: &str, b: &str) -> (r: bool)
    ensures
        r == (a@ == b@),
{
    let x = chars_of(a);
    let y = chars_of(b);
    if x.len() != y.len() {
        return false;
    }
    let mut i: usize = 0;
    while i < x.len()
        invariant
            x@ == a@,
            y@ == b@,
            x.len() == y.len(),
            i <= x.len(),
            forall|j: int| 0 <= j < i ==> x@[j] == y@[j],
        decreases x.len() - i,
    {
        if x[i] != y[i] {
            return false;
        }
        i += 1;
    }
    assert(x@ =~= y@);
    true
}

/// Whether `text` begins with `prefix`.
pub fn starts_with(text: &str, prefix: &str) -> (r: bool)
    ensures
        r == has_prefix(text@, prefix@),
{
    let x = chars_of(text);
    let p = chars_of(prefix);
    if p.len() > x.len() {
        return false;
    }
    let mut i: usize = 0;
    while i < p.len()
        invariant
            x@ == text@,
            p@ == prefix@,
            p.len() <= x.len(),
            i <= p.len(),
            forall|j: int| 0 <= j < i ==> x@[j] == p@[j],
        decreases p.len() - i,
    {
        if x[i] != p[i] {
            assert(x@.take(p@.len() as int)[i as int] != p@[i as int]);
            return false;
        }
        i += 1;
    }
    assert(x@.take(p@.len() as int) =~= p@);
    true
}

/// Finds the last occurrence of `c` in `v`.
pub fn find_last(v: &Vec<char>, c: char) -> (r: Option<usize>)
    ensures
        match r {
            Some(i) => i < v.len() && v@[i as int] == c && last_index_of(v@, c) == Some(i as int),
            None => last_index_of(v@, c) is None,
        },
{
    let mut i: usize = v.len();
    assert(v@.take(i as int) == v@);
    while i > 0
        invariant
            i <= v.len(),
            last_index_of(v@, c) == last_index_of(v@.take(i as int), c),
        decreases i,
    {
        if v[i - 1] == c {
            return Some(i - 1);
        }
        assert(v@.take(i as int).drop_last() == v@.take(i - 1));
        i -= 1;
    }
    None
}

/// Whether `c` occurs in `text`.
pub fn has_char(text: &str, c: char) -> (r: bool)
    ensures
        r == text@.contains(c),
{
    let v = chars_of(text);
    proof {
        last_index_of_is_last(v@, c);
    }
    find_last(&v, c).is_some()
}

/// The text `a` followed by the text `b`.
pub fn joined(a: &str, b: &str) -> (r: String)
    ensures
        r@ == a@ + b@,
{
    let mut r = String::from_str(a);
    r.append(b);
    r
}

/// Whether `needle` stands in `text` at the index `i`.
fn matches_at(text: &Vec<char>, needle: &Vec<char>, i: usize) -> (r: bool)
    requires
        i + needle.len() <= text.len(),
    ensures
        r == occurs_at(text@, needle@, i as int),
{
    let mut k: usize = 0;
    while k < needle.len()
        invariant
            k <= needle.len(),
            i + needle.len() <= text.len(),
            forall|j: int| 0 <= j < k ==> text@[i + j] == needle@[j],
        decreases needle.len() - k,
    {
        if text[i + k] != needle[k] {
            assert(text@.subrange(i as int, i + needle@.len())[k as int] != needle@[k as int]);
            return false;
        }
        k += 1;
    }
    assert(text@.subrange(i as int, i + needle@.len()) =~= needle@);
    true
}

/// Finds the first occurrence of `needle` in `text`.
pub fn find_first(text: &Vec<char>, needle: &Vec<char>) -> (r: Option<usize>)
    ensures
        match r {
            Some(i) => i <= text.len() && first_occurrence(text@, needle@, 0) == Some(i as int),
            None => first_occurrence(text@, needle@, 0) is None,
        },
{
    if needle.len() > text.len() {
        return None;
    }
    let last: usize = text.len() - needle.len();
    let mut i: usize = 0;
    loop
        invariant
            i <= last,
            last == text.len() - needle.len(),
            first_occurrence(text@, needle@, 0) == first_occurrence(text@, needle@, i as int),
        decreases last - i,
    {
        if matches_at(text, needle, i) {
            return Some(i);
        }
        if i == last {
            return None;
        }
        i += 1;
    }
}

/// Cuts `text` before the first occurrence of `needle`; hands the whole
/// text back where `needle` does not occur.
pub fn cut_before(text: &str, needle: &str) -> (r: String)
    ensures
        r@ == before_first(text@, needle@),
{
    let t = chars_of(text);
    let n = chars_of(needle);
    match find_first(&t, &n) {
        Some(i) => {
            assert(t@.subrange(0, i as int) == t@.take(i as int));
            string_of_range(&t, 0, i)
        },
        None => {
            assert(t@.subrange(0, t@.len() as int) == t@);
            string_of_range(&t, 0, t.len())
        },
    }
}

/// Whether `needle` occurs in `text`.
pub fn has_text(text: &str, needle: &str) -> (r: bool)
    ensures
        r == contains_text(text@, needle@),
{
    let t = chars_of(text);
    let n = chars_of(needle);
    find_first(&t, &n).is_some()
}

/// Maps one full-width digit to ASCII and hands any other character back.
pub fn fold_digit_char(c: char) -> (r: char)
    ensures
        r == fold_digit(c),
{
    if c >= '\u{FF10}' && c <= '\u{FF19}' {
        let d: u8 = ((c as u32 - 0xFF10) + 0x30) as u8;
        d as char
    } else {
        c
    }
}

/// Converts full-width digits and characters to ASCII: NFKC
/// normalization first, then the full-width digits that remain. Text
/// that is already ASCII comes back unchanged.
pub fn normalize_asian_text(text: &str) -> (r: String)
    ensures
        r@ == normalized_text(text@),
        is_ascii_text(text@) ==> r@ == text@,
{
    let composed = nfkc(text);
    let v = chars_of(composed.as_str());
    let mut out = String::new();
    let mut i: usize = 0;
    while i < v.len()
        invariant
            i <= v.len(),
            out@ == fold_digits(v@).take(i as int),
        decreases v.len() - i,
    {
        push_char(&mut out, fold_digit_char(v[i]));
        assert(fold_digits(v@).take(i + 1) == fold_digits(v@).take(i as int).push(
            fold_digit(v@[i as int]),
        ));
        i += 1;
    }
    assert(fold_digits(v@).take(v@.len() as int) == fold_digits(v@));
    proof {
        if is_ascii_text(text@) {
            ascii_text_is_normalized(text@);
        }
    }
    out
}

} // verus!
