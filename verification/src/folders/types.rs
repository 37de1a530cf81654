//! Work codes, and the files and folders that the organizer manages.

use vstd::prelude::*;
use crate::errors::HvtError;
use crate::file_name::{is_audio_extension, is_audio_file_name, is_audio_name};
use crate::text::{
    chars_of, joined, find_last, has_prefix, last_index_of, same_text, starts_with, string_of_range,
};

verus! {

/// The code of a work: `RJ` followed by digits.
#[derive(Debug, Clone, PartialEq, Eq, Hash)]
pub struct RJCode(String);

/// A text is accepted as a work code where it starts with `RJ` and is
/// at least six bytes long.
pub open spec fn is_rjcode_text(s: Seq<char>) -> bool {
    has_prefix(s, "RJ"@) && vstd::utf8::encode_utf8(s).len() >= 6
}

impl View for RJCode {
    type V = Seq<char>;

    closed spec fn view(&self) -> Seq<char> {
        self.0@
    }
}

impl RJCode {
    /// Makes a work code of a text that starts with `RJ` and is at
    /// least six bytes long; any other text is refused with a parse
    /// error that quotes it.
    pub fn new(s: String) -> (r: Result<Self, HvtError>)
        ensures
            match r {
                Ok(code) => is_rjcode_text(s@) && code@ == s@,
                Err(e) => !is_rjcode_text(s@) && (e matches HvtError::Parse(msg) && msg@
                    == "Invalid RJCode format: "@ + s@),
            },
    {
        if starts_with(s.as_str(), "RJ") && s.as_str().as_bytes().len() >= 6 {
            Ok(RJCode(s))
        } else {
            Err(HvtError::Parse(joined("Invalid RJCode format: ", s.as_str())))
        }
    }

    /// The code as text.
    pub fn as_str(&self) -> (r: &str)
        ensures
            r@ == self@,
    {
        self.0.as_str()
    }

    /// Makes a work code of a text that was validated before.
    pub fn from_string_unchecked(s: String) -> (r: Self)
        ensures
            r@ == s@,
    {
        RJCode(s)
    }
}

/// The code of a circle (a maker).
#[derive(Debug, Clone, PartialEq, Eq, Hash, Default)]
pub struct RGCode(String);

impl View for RGCode {
    type V = Seq<char>;

    closed spec fn view(&self) -> Seq<char> {
        self.0@
    }
}

impl RGCode {
    /// Makes a circle code of any text.
    pub fn new(s: String) -> (r: Self)
        ensures
            r@ == s@,
    {
        RGCode(s)
    }

    /// The code as text.
    pub fn as_str(&self) -> (r: &str)
        ensures
            r@ == self@,
    {
        self.0.as_str()
    }
}

/// What follows the last period of a file name; the whole name where
/// it has no period.
pub open spec fn last_part(filename: Seq<char>) -> Seq<char> {
    match last_index_of(filename, '.') {
        Some(i) => filename.skip(i + 1),
        None => filename,
    }
}

/// A file that sits directly in a work's folder.
#[derive(Debug, Clone)]
pub struct ManagedFile {
    filename: String,
    extension: String,
    path: String,
}

impl ManagedFile {
    /// The file's name.
    pub closed spec fn name(&self) -> Seq<char> {
        self.filename@
    }

    /// What follows the last period of the file's name.
    pub closed spec fn kind(&self) -> Seq<char> {
        self.extension@
    }

    /// The file's path.
    pub closed spec fn location(&self) -> Seq<char> {
        self.path@
    }

    /// Describes a file by its name and its path. Its extension is what
    /// follows the last period of the name.
    pub fn new(filename: String, path: String) -> (r: Self)
        ensures
            r.name() == filename@,
            r.kind() == last_part(filename@),
            r.location() == path@,
    {
        let v = chars_of(filename.as_str());
        let extension = match find_last(&v, '.') {
            Some(i) => {
                assert(v@.subrange(i + 1, v@.len() as int) == v@.skip(i + 1));
                string_of_range(&v, i + 1, v.len())
            },
            None => {
                assert(v@.subrange(0, v@.len() as int) == v@);
                string_of_range(&v, 0, v.len())
            },
        };
        ManagedFile { filename, extension, path }
    }

    /// The file's name.
    pub fn filename(&self) -> (r: &str)
        ensures
            r@ == self.name(),
    {
        self.filename.as_str()
    }

    /// What follows the last period of the file's name.
    pub fn extension(&self) -> (r: &str)
        ensures
            r@ == self.kind(),
    {
        self.extension.as_str()
    }

    /// The file's path.
    pub fn path(&self) -> (r: &str)
        ensures
            r@ == self.location(),
    {
        self.path.as_str()
    }
}

/// The folder of one work.
#[derive(Debug)]
pub struct ManagedFolder {
    /// The folder is named like a work and holds audio files.
    pub is_valid: bool,
    /// The folder holds the marker of a finished tagging.
    pub is_tagged: bool,
    /// The folder holds a cover.
    pub has_cover: bool,
    /// The work's code: the folder's name.
    pub rjcode: RJCode,
    /// The folder's path.
    pub path: String,
    /// The files that sit directly in the folder.
    pub files: Vec<ManagedFile>,
}

/// One of the files has the given extension.
pub open spec fn any_of_kind(files: Seq<ManagedFile>, kind: Seq<char>) -> bool {
    exists|i: int| 0 <= i < files.len() && (#[trigger] files[i]).kind() == kind
}

/// One of the files has the given name.
pub open spec fn any_named(files: Seq<ManagedFile>, name: Seq<char>) -> bool {
    exists|i: int| 0 <= i < files.len() && (#[trigger] files[i]).name() == name
}

/// One of the files is an audio file by its extension.
pub open spec fn any_audio_kind(files: Seq<ManagedFile>) -> bool {
    exists|i: int| 0 <= i < files.len() && is_audio_extension((#[trigger] files[i]).kind())
}

/// One of the names is the name of an audio file.
pub open spec fn any_audio_name(names: Seq<String>) -> bool {
    exists|i: int| 0 <= i < names.len() && is_audio_name((#[trigger] names[i])@)
}

impl ManagedFolder {
    /// Describes the folder of a work from what was found in it:
    /// `files` sit directly in the folder, and `nested_names` are the
    /// names of the files one level below, in its subdirectories. The
    /// folder is tagged where a file with the extension `tagged` is
    /// present, has a cover where `folder.jpeg` is, and is valid where
    /// its name starts with `RJ` and it holds an audio file, directly
    /// or one level below.
    pub fn new(path: String, folder_name: String, files: Vec<ManagedFile>, nested_names: &[String]) -> (r:
        Self)
        ensures
            r.path@ == path@,
            r.rjcode@ == folder_name@,
            r.files@ == files@,
            r.is_tagged == any_of_kind(files@, "tagged"@),
            r.has_cover == any_named(files@, "folder.jpeg"@),
            r.is_valid == (has_prefix(folder_name@, "RJ"@) && (any_audio_kind(files@)
                || any_audio_name(nested_names@))),
    {
        let mut has_audio = false;
        let mut is_tagged = false;
        let mut has_cover = false;
        let mut i: usize = 0;
        while i < files.len()
            invariant
                i <= files.len(),
                has_audio == any_audio_kind(files@.take(i as int)),
                is_tagged == any_of_kind(files@.take(i as int), "tagged"@),
                has_cover == any_named(files@.take(i as int), "folder.jpeg"@),
            decreases files.len() - i,
        {
            let file = &files[i];
            let ext = file.extension();
            let audio = same_text(ext, "mp3") || same_text(ext, "flac") || same_text(ext, "wav")
                || same_text(ext, "ogg");
            let tagged = same_text(ext, "tagged");
            let cover = same_text(file.filename(), "folder.jpeg");
            proof {
                let before = files@.take(i as int);
                let now = files@.take(i + 1);
                assert(now[i as int] == files@[i as int]);
                assert(forall|j: int| 0 <= j < i ==> now[j] == before[j]);
                if any_audio_kind(now) && !audio {
                    let w = choose|w: int|
                        0 <= w < now.len() && is_audio_extension((#[trigger] now[w]).kind());
                    assert(is_audio_extension(before[w].kind()));
                }
                if any_of_kind(now, "tagged"@) && !tagged {
                    let w = choose|w: int|
                        0 <= w < now.len() && (#[trigger] now[w]).kind() == "tagged"@;
                    assert(before[w].kind() == "tagged"@);
                }
                if any_named(now, "folder.jpeg"@) && !cover {
                    let w = choose|w: int|
                        0 <= w < now.len() && (#[trigger] now[w]).name() == "folder.jpeg"@;
                    assert(before[w].name() == "folder.jpeg"@);
                }
                if any_audio_kind(before) {
                    let w = choose|w: int|
                        0 <= w < before.len() && is_audio_extension((#[trigger] before[w]).kind());
                    assert(is_audio_extension(now[w].kind()));
                }
                if any_of_kind(before, "tagged"@) {
                    let w = choose|w: int|
                        0 <= w < before.len() && (#[trigger] before[w]).kind() == "tagged"@;
                    assert(now[w].kind() == "tagged"@);
                }
                if any_named(before, "folder.jpeg"@) {
                    let w = choose|w: int|
                        0 <= w < before.len() && (#[trigger] before[w]).name() == "folder.jpeg"@;
                    assert(now[w].name() == "folder.jpeg"@);
                }
            }
            has_audio = has_audio || audio;
            is_tagged = is_tagged || tagged;
            has_cover = has_cover || cover;
            i += 1;
        }
        assert(files@.take(files@.len() as int) == files@);
        let mut nested_audio = false;
        let mut k: usize = 0;
        while k < nested_names.len()
            invariant
                k <= nested_names.len(),
                nested_audio == any_audio_name(nested_names@.take(k as int)),
            decreases nested_names.len() - k,
        {
            let audio = is_audio_file_name(nested_names[k].as_str());
            proof {
                let before = nested_names@.take(k as int);
                let now = nested_names@.take(k + 1);
                assert(now[k as int] == nested_names@[k as int]);
                assert(forall|j: int| 0 <= j < k ==> now[j] == before[j]);
                if any_audio_name(now) && !audio {
                    let w = choose|w: int| 0 <= w < now.len() && is_audio_name((#[trigger] now[w])@);
                    assert(is_audio_name(before[w]@));
                }
                if any_audio_name(before) {
                    let w = choose|w: int|
                        0 <= w < before.len() && is_audio_name((#[trigger] before[w])@);
                    assert(is_audio_name(now[w]@));
                }
            }
            nested_audio = nested_audio || audio;
            k += 1;
        }
        assert(nested_names@.take(nested_names@.len() as int) == nested_names@);
        let is_valid = (has_audio || nested_audio) && starts_with(folder_name.as_str(), "RJ");
        ManagedFolder {
            is_valid,
            is_tagged,
            has_cover,
            rjcode: RJCode::from_string_unchecked(folder_name),
            path,
            files,
        }
    }

    /// Describes a folder that could not be read: it is not valid and
    /// holds nothing.
    pub fn unreadable(path: String) -> (r: Self)
        ensures
            r.path@ == path@,
            !r.is_valid,
            !r.is_tagged,
            !r.has_cover,
            r.files@.len() == 0,
            r.rjcode@.len() == 0,
    {
        ManagedFolder {
            is_valid: false,
            is_tagged: false,
            has_cover: false,
            rjcode: RJCode::from_string_unchecked(String::new()),
            path,
            files: Vec::new(),
        }
    }
}

} // verus!
