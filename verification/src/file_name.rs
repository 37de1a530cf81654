//! File names: stem, extension, the recognized audio extensions, and
//! decimal suffixes.

use vstd::prelude::*;
use crate::text::{chars_of, find_last, last_index_of, push_char, same_text, string_of_range};

verus! {

/// The stem of a file name: what stands before the last period, unless
/// that period is the first character or the name is `..`.
pub open spec fn file_stem(name: Seq<char>) -> Seq<char> {
    if name == ".."@ {
        name
    } else {
        match last_index_of(name, '.') {
            Some(i) => if i > 0 {
                name.take(i)
            } else {
                name
            },
            None => name,
        }
    }
}

/// The extension of a file name: what follows the last period, unless
/// that period is the first character or the name is `..`.
pub open spec fn file_extension(name: Seq<char>) -> Option<Seq<char>> {
    if name == ".."@ {
        None
    } else {
        match last_index_of(name, '.') {
            Some(i) => if i > 0 {
                Some(name.skip(i + 1))
            } else {
                None
            },
            None => None,
        }
    }
}

/// One of the recognized audio extensions.
pub open spec fn is_audio_extension(ext: Seq<char>) -> bool {
    ext == "mp3"@ || ext == "flac"@ || ext == "wav"@ || ext == "ogg"@
}

/// A file name with a recognized audio extension.
pub open spec fn is_audio_name(name: Seq<char>) -> bool {
    match file_extension(name) {
        Some(ext) => is_audio_extension(ext),
        None => false,
    }
}

/// The ASCII digit of a number below ten.
pub open spec fn digit_char(d: nat) -> char
    recommends
        d < 10,
{
    (d + 48) as char
}

/// A number written in base ten, without leading zeros.
pub open spec fn decimal_text(n: nat) -> Seq<char>
    decreases n,
{
    if n < 10 {
        seq![digit_char(n)]
    } else {
        decimal_text(n / 10).push(digit_char(n % 10))
    }
}

/// Splits a file name into its stem and its extension.
pub fn split_file_name(name: &str) -> (r: (String, Option<String>))
    ensures
        r.0@ == file_stem(name@),
        match r.1 {
            Some(ext) => file_extension(name@) == Some(ext@),
            None => file_extension(name@) is None,
        },
{
    let v = chars_of(name);
    assert(v@.subrange(0, v@.len() as int) == v@);
    if same_text(name, "..") {
        return (string_of_range(&v, 0, v.len()), None);
    }
    match find_last(&v, '.') {
        Some(i) => {
            if i > 0 {
                assert(v@.subrange(0, i as int) == v@.take(i as int));
                assert(v@.subrange(i + 1, v@.len() as int) == v@.skip(i + 1));
                (string_of_range(&v, 0, i), Some(string_of_range(&v, i + 1, v.len())))
            } else {
                (string_of_range(&v, 0, v.len()), None)
            }
        },
        None => (string_of_range(&v, 0, v.len()), None),
    }
}

/// Whether a file name has one of the recognized audio extensions:
/// `mp3`, `flac`, `wav` or `ogg`, in lower case.
pub fn is_audio_file_name(name: &str) -> (r: bool)
    ensures
        r == is_audio_name(name@),
{
    let (_, extension) = split_file_name(name);
    match extension {
        Some(ext) => {
            let e = ext.as_str();
            same_text(e, "mp3") || same_text(e, "flac") || same_text(e, "wav") || same_text(
                e,
                "ogg",
            )
        },
        None => false,
    }
}

/// Writes a number in base ten.
pub fn decimal_string(n: u64) -> (s: String)
    ensures
        s@ == decimal_text(n as nat),
    decreases n,
{
    if n < 10 {
        let mut s = String::new();
        let d: u8 = n as u8 + 48;
        push_char(&mut s, d as char);
        assert(s@ =~= seq![digit_char(n as nat)]);
        s
    } else {
        let mut s = decimal_string(n / 10);
        let d: u8 = (n % 10) as u8 + 48;
        push_char(&mut s, d as char);
        s
    }
}

} // verus!
