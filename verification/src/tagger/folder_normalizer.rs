//! Classification of a work's directory layout and the plan that
//! flattens it: every audio file found in a subdirectory is given a
//! name at the root of the work.

use vstd::prelude::*;
use crate::file_name::{
    decimal_string, decimal_text, file_extension, file_stem, is_audio_file_name, is_audio_name,
    split_file_name,
};
use crate::errors::HvtError;
use crate::text::{
    ascii_lowered, chars_of, has_char, has_prefix, joined, last_index_of_is_last, lowercase,
    lowered, push_char, same_text, starts_with, texts,
};

verus! {

/// The folder layouts found in audio works.
#[derive(Debug, Clone, Copy, PartialEq, Eq, Structural)]
pub enum FolderPattern {
    /// All audio files are directly in the work's folder.
    Flat,
    /// Audio files are in a subdirectory named `mp3`.
    Mp3Subfolder,
    /// Audio files are in a subdirectory named `audio`.
    AudioSubfolder,
    /// Audio files are in a subdirectory named `wav`, `flac` or `ogg`.
    FormatSubfolder,
    /// Audio files are in subdirectories per disc (`disc1`, `cd2`).
    DiscSubfolders,
    /// Audio files are in subdirectories per language (`jp`, `en`).
    LanguageSubfolders,
    /// More than one of the layouts above at once.
    Mixed,
}

/// How one folder layout is normalized.
#[derive(Debug)]
pub struct NormalizationStrategy {
    /// The layout.
    pub pattern: FolderPattern,
    /// Names of the subdirectories to scan, relative to the work's
    /// folder.
    pub subdirs_to_check: Vec<String>,
    /// Whether the subdirectory's name is kept in the file name when a
    /// file is moved.
    pub preserve_subdir_in_name: bool,
}

/// The subdirectory names that belong to a layout.
pub open spec fn subdirs_of(pattern: FolderPattern) -> Seq<Seq<char>> {
    match pattern {
        FolderPattern::Mp3Subfolder => seq!["mp3"@],
        FolderPattern::AudioSubfolder => seq!["audio"@],
        FolderPattern::FormatSubfolder => seq!["wav"@, "flac"@, "ogg"@],
        FolderPattern::LanguageSubfolders => seq!["jp"@, "en"@, "cn"@],
        _ => Seq::empty(),
    }
}

/// The layouts whose subdirectory names tell files apart.
pub open spec fn keeps_subdir_name(pattern: FolderPattern) -> bool {
    pattern == FolderPattern::DiscSubfolders || pattern == FolderPattern::LanguageSubfolders
}

impl NormalizationStrategy {
    /// The strategy for a layout.
    pub fn new(pattern: FolderPattern) -> (r: Self)
        ensures
            r.pattern == pattern,
            texts(r.subdirs_to_check@) == subdirs_of(pattern),
            r.preserve_subdir_in_name == keeps_subdir_name(pattern),
    {
        let mut subdirs: Vec<String> = Vec::new();
        let mut preserve = false;
        match pattern {
            FolderPattern::Flat => {},
            FolderPattern::Mp3Subfolder => {
                subdirs.push(String::from_str("mp3"));
            },
            FolderPattern::AudioSubfolder => {
                subdirs.push(String::from_str("audio"));
            },
            FolderPattern::FormatSubfolder => {
                subdirs.push(String::from_str("wav"));
                subdirs.push(String::from_str("flac"));
                subdirs.push(String::from_str("ogg"));
            },
            FolderPattern::DiscSubfolders => {
                preserve = true;
            },
            FolderPattern::LanguageSubfolders => {
                subdirs.push(String::from_str("jp"));
                subdirs.push(String::from_str("en"));
                subdirs.push(String::from_str("cn"));
                preserve = true;
            },
            FolderPattern::Mixed => {},
        }
        assert(texts(subdirs@) =~= subdirs_of(pattern));
        NormalizationStrategy {
            pattern,
            subdirs_to_check: subdirs,
            preserve_subdir_in_name: preserve,
        }
    }
}

/// A lowered directory name that begins like a disc folder.
pub open spec fn is_disc_name(lower: Seq<char>) -> bool {
    has_prefix(lower, "disc"@) || has_prefix(lower, "cd"@)
}

/// A lowered directory name that is one of the language codes.
pub open spec fn is_language_code(lower: Seq<char>) -> bool {
    lower == "jp"@ || lower == "en"@ || lower == "cn"@ || lower == "kr"@
}

/// The layout that a lowered directory name stands for, if any.
pub open spec fn category_of_lowered(lower: Seq<char>) -> Option<FolderPattern> {
    if lower == "mp3"@ {
        Some(FolderPattern::Mp3Subfolder)
    } else if lower == "audio"@ {
        Some(FolderPattern::AudioSubfolder)
    } else if lower == "wav"@ || lower == "flac"@ || lower == "ogg"@ {
        Some(FolderPattern::FormatSubfolder)
    } else if is_disc_name(lower) {
        Some(FolderPattern::DiscSubfolders)
    } else if is_language_code(lower) {
        Some(FolderPattern::LanguageSubfolders)
    } else {
        None
    }
}

/// The layout that a directory name stands for, whatever its case.
pub open spec fn subfolder_category(dir: Seq<char>) -> Option<FolderPattern> {
    category_of_lowered(lowered(dir))
}

/// Tells which layout a directory name stands for, whatever its case.
pub fn category_of(dir: &str) -> (r: Option<FolderPattern>)
    ensures
        r == subfolder_category(dir@),
{
    let lowered = lowercase(dir);
    let lower = lowered.as_str();
    if same_text(lower, "mp3") {
        Some(FolderPattern::Mp3Subfolder)
    } else if same_text(lower, "audio") {
        Some(FolderPattern::AudioSubfolder)
    } else if same_text(lower, "wav") || same_text(lower, "flac") || same_text(lower, "ogg") {
        Some(FolderPattern::FormatSubfolder)
    } else if starts_with(lower, "disc") || starts_with(lower, "cd") {
        Some(FolderPattern::DiscSubfolders)
    } else if same_text(lower, "jp") || same_text(lower, "en") || same_text(lower, "cn")
        || same_text(lower, "kr") {
        Some(FolderPattern::LanguageSubfolders)
    } else {
        None
    }
}

/// One regular file found under a work's folder.
#[derive(Debug, Clone)]
pub struct FileEntry {
    /// The path of the directory that holds the file, relative to the
    /// work's folder, with `/` between its parts; empty for a file at
    /// the root.
    pub relative_dir: String,
    /// The file's name.
    pub file_name: String,
}

/// The mathematical content of a `FileEntry`.
pub struct FileEntryModel {
    pub relative_dir: Seq<char>,
    pub file_name: Seq<char>,
}

impl View for FileEntry {
    type V = FileEntryModel;

    open spec fn view(&self) -> FileEntryModel {
        FileEntryModel { relative_dir: self.relative_dir@, file_name: self.file_name@ }
    }
}

/// What a work's folder holds: the names of the immediate children of
/// the folder, of any kind, and every regular file under it, at any
/// depth.
#[derive(Debug, Clone)]
pub struct WorkListing {
    /// Names of the immediate children of the folder.
    pub root_entries: Vec<String>,
    /// The regular files under the folder.
    pub files: Vec<FileEntry>,
}

/// The mathematical content of a `WorkListing`.
pub struct ListingModel {
    pub root_entries: Seq<Seq<char>>,
    pub files: Seq<FileEntryModel>,
}

/// The views of a sequence of file entries.
pub open spec fn entries(files: Seq<FileEntry>) -> Seq<FileEntryModel> {
    files.map_values(|f: FileEntry| f@)
}

impl View for WorkListing {
    type V = ListingModel;

    open spec fn view(&self) -> ListingModel {
        ListingModel { root_entries: texts(self.root_entries@), files: entries(self.files@) }
    }
}

/// The directory is an immediate child of the work's folder.
pub open spec fn is_immediate(dir: Seq<char>) -> bool {
    dir.len() > 0 && !dir.contains('/')
}

/// The entry is an audio file that sits directly in a subdirectory of
/// the given category.
pub open spec fn confirms(entry: FileEntryModel, category: FolderPattern) -> bool {
    &&& is_audio_name(entry.file_name)
    &&& is_immediate(entry.relative_dir)
    &&& subfolder_category(entry.relative_dir) == Some(category)
}

/// One of the first `k` entries confirms the category.
pub open spec fn confirmed_within(
    files: Seq<FileEntryModel>,
    category: FolderPattern,
    k: int,
) -> bool {
    exists|i: int| 0 <= i < k && i < files.len() && #[trigger] confirms(files[i], category)
}

/// The category is confirmed: a subdirectory of that category holds at
/// least one audio file.
pub open spec fn is_confirmed(files: Seq<FileEntryModel>, category: FolderPattern) -> bool {
    confirmed_within(files, category, files.len() as int)
}

/// 1 where the category is confirmed, else 0.
pub open spec fn confirmed_as_count(files: Seq<FileEntryModel>, category: FolderPattern) -> nat {
    if is_confirmed(files, category) {
        1
    } else {
        0
    }
}

/// How many of the five categories are confirmed.
pub open spec fn confirmed_count(files: Seq<FileEntryModel>) -> nat {
    confirmed_as_count(files, FolderPattern::Mp3Subfolder) + confirmed_as_count(
        files,
        FolderPattern::AudioSubfolder,
    ) + confirmed_as_count(files, FolderPattern::FormatSubfolder) + confirmed_as_count(
        files,
        FolderPattern::DiscSubfolders,
    ) + confirmed_as_count(files, FolderPattern::LanguageSubfolders)
}

/// The layout of a work: `Mixed` where more than one category is
/// confirmed, the category where exactly one is, `Flat` where none is.
pub open spec fn detected_pattern(files: Seq<FileEntryModel>) -> FolderPattern {
    if confirmed_count(files) > 1 {
        FolderPattern::Mixed
    } else if is_confirmed(files, FolderPattern::Mp3Subfolder) {
        FolderPattern::Mp3Subfolder
    } else if is_confirmed(files, FolderPattern::AudioSubfolder) {
        FolderPattern::AudioSubfolder
    } else if is_confirmed(files, FolderPattern::FormatSubfolder) {
        FolderPattern::FormatSubfolder
    } else if is_confirmed(files, FolderPattern::DiscSubfolders) {
        FolderPattern::DiscSubfolders
    } else if is_confirmed(files, FolderPattern::LanguageSubfolders) {
        FolderPattern::LanguageSubfolders
    } else {
        FolderPattern::Flat
    }
}

/// Considering one more entry confirms a category exactly where it was
/// confirmed before or that entry confirms it.
proof fn confirmed_within_step(files: Seq<FileEntryModel>, category: FolderPattern, k: int)
    requires
        0 <= k < files.len(),
    ensures
        confirmed_within(files, category, k + 1) == (confirmed_within(files, category, k)
            || confirms(files[k], category)),
{
    if confirmed_within(files, category, k + 1) {
        let i = choose|i: int|
            0 <= i < k + 1 && i < files.len() && #[trigger] confirms(files[i], category);
        if i < k {
            assert(confirmed_within(files, category, k));
        }
    }
    if confirmed_within(files, category, k) {
        let i = choose|i: int| 0 <= i < k && i < files.len() && #[trigger] confirms(files[i], category);
        assert(0 <= i < k + 1 && confirms(files[i], category));
    }
    if confirms(files[k], category) {
        assert(0 <= k < k + 1 && confirms(files[k], category));
    }
}

/// The category that one entry confirms, if it confirms any.
pub open spec fn confirmed_by(entry: FileEntryModel) -> Option<FolderPattern> {
    if is_audio_name(entry.file_name) && is_immediate(entry.relative_dir) {
        subfolder_category(entry.relative_dir)
    } else {
        None
    }
}

/// Tells which category one entry confirms.
pub fn category_confirmed_by(entry: &FileEntry) -> (r: Option<FolderPattern>)
    ensures
        r == confirmed_by(entry@),
        forall|c: FolderPattern| confirms(entry@, c) <==> r == Some(c),
{
    let dir = entry.relative_dir.as_str();
    if is_audio_file_name(entry.file_name.as_str()) && !dir.is_empty() && !has_char(dir, '/') {
        category_of(dir)
    } else {
        None
    }
}

/// Detects the folder layout of a work from the files found under it.
pub fn detect_folder_pattern(listing: &WorkListing) -> (r: FolderPattern)
    ensures
        r == detected_pattern(listing@.files),
{
    let mut has_mp3 = false;
    let mut has_audio = false;
    let mut has_format = false;
    let mut has_disc = false;
    let mut has_lang = false;
    let ghost files = listing@.files;
    let mut i: usize = 0;
    while i < listing.files.len()
        invariant
            i <= listing.files.len(),
            files == listing@.files,
            files.len() == listing.files.len(),
            has_mp3 == confirmed_within(files, FolderPattern::Mp3Subfolder, i as int),
            has_audio == confirmed_within(files, FolderPattern::AudioSubfolder, i as int),
            has_format == confirmed_within(files, FolderPattern::FormatSubfolder, i as int),
            has_disc == confirmed_within(files, FolderPattern::DiscSubfolders, i as int),
            has_lang == confirmed_within(files, FolderPattern::LanguageSubfolders, i as int),
        decreases listing.files.len() - i,
    {
        let found = category_confirmed_by(&listing.files[i]);
        proof {
            assert(files[i as int] == listing.files@[i as int]@);
            confirmed_within_step(files, FolderPattern::Mp3Subfolder, i as int);
            confirmed_within_step(files, FolderPattern::AudioSubfolder, i as int);
            confirmed_within_step(files, FolderPattern::FormatSubfolder, i as int);
            confirmed_within_step(files, FolderPattern::DiscSubfolders, i as int);
            confirmed_within_step(files, FolderPattern::LanguageSubfolders, i as int);
        }
        match found {
            Some(FolderPattern::Mp3Subfolder) => {
                has_mp3 = true;
            },
            Some(FolderPattern::AudioSubfolder) => {
                has_audio = true;
            },
            Some(FolderPattern::FormatSubfolder) => {
                has_format = true;
            },
            Some(FolderPattern::DiscSubfolders) => {
                has_disc = true;
            },
            Some(FolderPattern::LanguageSubfolders) => {
                has_lang = true;
            },
            _ => {},
        }
        i += 1;
    }
    let mut count: u8 = 0;
    if has_mp3 {
        count += 1;
    }
    if has_audio {
        count += 1;
    }
    if has_format {
        count += 1;
    }
    if has_disc {
        count += 1;
    }
    if has_lang {
        count += 1;
    }
    if count > 1 {
        FolderPattern::Mixed
    } else if has_mp3 {
        FolderPattern::Mp3Subfolder
    } else if has_audio {
        FolderPattern::AudioSubfolder
    } else if has_format {
        FolderPattern::FormatSubfolder
    } else if has_disc {
        FolderPattern::DiscSubfolders
    } else if has_lang {
        FolderPattern::LanguageSubfolders
    } else {
        FolderPattern::Flat
    }
}

/// An audio file sits directly in the directory `dir`.
pub open spec fn holds_audio(files: Seq<FileEntryModel>, dir: Seq<char>) -> bool {
    exists|i: int|
        0 <= i < files.len() && (#[trigger] files[i]).relative_dir == dir && is_audio_name(
            files[i].file_name,
        )
}

/// Checks if a directory of the work holds audio files directly.
pub fn has_audio_files_in_dir(listing: &WorkListing, dir: &str) -> (r: bool)
    ensures
        r == holds_audio(listing@.files, dir@),
{
    let mut i: usize = 0;
    while i < listing.files.len()
        invariant
            i <= listing.files.len(),
            forall|j: int|
                0 <= j < i ==> !((#[trigger] listing@.files[j]).relative_dir == dir@
                    && is_audio_name(listing@.files[j].file_name)),
        decreases listing.files.len() - i,
    {
        let entry = &listing.files[i];
        assert(listing@.files[i as int] == entry@);
        if same_text(entry.relative_dir.as_str(), dir) && is_audio_file_name(
            entry.file_name.as_str(),
        ) {
            return true;
        }
        i += 1;
    }
    false
}

/// Collects the audio files of a work, each with the path of its
/// directory relative to the work's folder, in the order of the
/// listing.
pub fn collect_audio_files_recursive(listing: &WorkListing) -> (r: Vec<FileEntry>)
    ensures
        entries(r@) == listing@.files.filter(|f: FileEntryModel| is_audio_name(f.file_name)),
{
    let ghost audio = |f: FileEntryModel| is_audio_name(f.file_name);
    let mut r: Vec<FileEntry> = Vec::new();
    let mut i: usize = 0;
    proof {
        reveal(Seq::filter);
        assert(entries(r@) =~= listing@.files.take(0).filter(audio));
    }
    while i < listing.files.len()
        invariant
            i <= listing.files.len(),
            audio == |f: FileEntryModel| is_audio_name(f.file_name),
            entries(r@) == listing@.files.take(i as int).filter(audio),
        decreases listing.files.len() - i,
    {
        let entry = &listing.files[i];
        proof {
            reveal(Seq::filter);
            assert(listing@.files[i as int] == entry@);
            assert(listing@.files.take(i + 1).drop_last() == listing@.files.take(i as int));
            assert(listing@.files.take(i + 1).last() == entry@);
        }
        if is_audio_file_name(entry.file_name.as_str()) {
            let ghost before = entries(r@);
            r.push(
                FileEntry {
                    relative_dir: entry.relative_dir.clone(),
                    file_name: entry.file_name.clone(),
                },
            );
            assert(entries(r@) =~= before.push(entry@));
        }
        i += 1;
    }
    assert(listing@.files.take(listing@.files.len() as int) == listing@.files);
    r
}

/// Whether a file keeps the name of its subdirectory when it moves to
/// the root: always under the disc and language layouts, and under the
/// mixed layout where the subdirectory looks like a disc or a language.
pub open spec fn preserves_prefix(pattern: FolderPattern, subdir: Seq<char>) -> bool {
    match pattern {
        FolderPattern::DiscSubfolders => true,
        FolderPattern::LanguageSubfolders => true,
        FolderPattern::Mixed => is_disc_name(lowered(subdir)) || is_language_code(
            lowered(subdir),
        ),
        _ => false,
    }
}

/// Determines if the subdirectory's name should be kept as a prefix of
/// the file name.
pub fn should_preserve_subdir_prefix(pattern: &FolderPattern, subdir: &str) -> (r: bool)
    ensures
        r == preserves_prefix(*pattern, subdir@),
{
    match pattern {
        FolderPattern::DiscSubfolders => true,
        FolderPattern::LanguageSubfolders => true,
        FolderPattern::Mixed => {
            let lowered = lowercase(subdir);
            let lower = lowered.as_str();
            starts_with(lower, "disc") || starts_with(lower, "cd") || same_text(lower, "jp")
                || same_text(lower, "en") || same_text(lower, "cn") || same_text(lower, "kr")
        },
        _ => false,
    }
}

/// A relative path with each `/` replaced by `_`.
pub open spec fn underscored(dir: Seq<char>) -> Seq<char> {
    Seq::new(
        dir.len(),
        |i: int|
            if dir[i] == '/' {
                '_'
            } else {
                dir[i]
            },
    )
}

/// The name that a file asks for at the root: its own name, with the
/// subdirectory's path and an underscore before it where the prefix is
/// kept.
pub open spec fn target_name(pattern: FolderPattern, entry: FileEntryModel) -> Seq<char> {
    if preserves_prefix(pattern, entry.relative_dir) {
        underscored(entry.relative_dir).push('_') + entry.file_name
    } else {
        entry.file_name
    }
}

/// Computes the name that a file asks for at the root.
pub fn destination_name(pattern: FolderPattern, entry: &FileEntry) -> (r: String)
    ensures
        r@ == target_name(pattern, entry@),
{
    if should_preserve_subdir_prefix(&pattern, entry.relative_dir.as_str()) {
        let dir = chars_of(entry.relative_dir.as_str());
        let mut name = String::new();
        let mut i: usize = 0;
        while i < dir.len()
            invariant
                i <= dir.len(),
                name@ == underscored(dir@).take(i as int),
            decreases dir.len() - i,
        {
            let c = if dir[i] == '/' {
                '_'
            } else {
                dir[i]
            };
            push_char(&mut name, c);
            assert(underscored(dir@).take(i + 1) == underscored(dir@).take(i as int).push(c));
            i += 1;
        }
        assert(underscored(dir@).take(dir@.len() as int) == underscored(dir@));
        push_char(&mut name, '_');
        name.append(entry.file_name.as_str());
        name
    } else {
        entry.file_name.clone()
    }
}

/// The largest number that is tried as a suffix.
pub const MAX_SUFFIX: u32 = 999;

/// A name with `_n` put before its extension.
pub open spec fn suffixed(name: Seq<char>, n: nat) -> Seq<char> {
    let base = file_stem(name).push('_') + decimal_text(n);
    match file_extension(name) {
        Some(ext) => if ext.len() > 0 {
            base.push('.') + ext
        } else {
            base
        },
        None => base,
    }
}

/// The first of the names `suffixed(name, n)`, `suffixed(name, n + 1)`,
/// up to the suffix 999, that is not taken.
pub open spec fn first_free(name: Seq<char>, taken: Seq<Seq<char>>, n: nat) -> Option<Seq<char>>
    decreases 1000 - n,
{
    if n > MAX_SUFFIX {
        None
    } else if !taken.contains(suffixed(name, n)) {
        Some(suffixed(name, n))
    } else {
        first_free(name, taken, n + 1)
    }
}

/// The name under which a file can be placed: the name itself where it
/// is free, else the first free name with a suffix from 1 to 999.
pub open spec fn resolved_name(name: Seq<char>, taken: Seq<Seq<char>>) -> Option<Seq<char>> {
    if !taken.contains(name) {
        Some(name)
    } else {
        first_free(name, taken, 1)
    }
}

/// The message of the failure to place a file.
pub open spec fn conflict_message(name: Seq<char>) -> Seq<char> {
    "Could not resolve filename conflict for "@ + name
}

/// A name found by `first_free` is not taken.
pub proof fn first_free_is_free(name: Seq<char>, taken: Seq<Seq<char>>, n: nat)
    ensures
        first_free(name, taken, n) matches Some(free) ==> !taken.contains(free),
    decreases 1000 - n,
{
    if n <= MAX_SUFFIX && taken.contains(suffixed(name, n)) {
        first_free_is_free(name, taken, n + 1);
    }
}

/// A resolved name is not taken.
pub proof fn resolved_name_is_free(name: Seq<char>, taken: Seq<Seq<char>>)
    ensures
        resolved_name(name, taken) matches Some(free) ==> !taken.contains(free),
{
    first_free_is_free(name, taken, 1);
}

/// Whether `name` is among the names in `taken`.
pub fn is_taken(taken: &Vec<String>, name: &str) -> (r: bool)
    ensures
        r == texts(taken@).contains(name@),
{
    let mut i: usize = 0;
    while i < taken.len()
        invariant
            i <= taken.len(),
            forall|j: int| 0 <= j < i ==> texts(taken@)[j] != name@,
        decreases taken.len() - i,
    {
        if same_text(taken[i].as_str(), name) {
            assert(texts(taken@)[i as int] == name@);
            return true;
        }
        i += 1;
    }
    false
}

/// Builds `name` with `_n` before its extension.
fn with_suffix(stem: &str, extension: &Option<String>, n: u32) -> (r: String)
    ensures
        r@ == {
            let base = stem@.push('_') + decimal_text(n as nat);
            match *extension {
                Some(ext) => if ext@.len() > 0 {
                    base.push('.') + ext@
                } else {
                    base
                },
                None => base,
            }
        },
{
    let mut r = String::from_str(stem);
    push_char(&mut r, '_');
    r.append(decimal_string(n as u64).as_str());
    match extension {
        Some(ext) => {
            if !ext.as_str().is_empty() {
                push_char(&mut r, '.');
                r.append(ext.as_str());
            }
        },
        None => {},
    }
    r
}

/// Resolves a conflict of file names by adding a number: `name` itself
/// where it is not taken, else the first of `stem_1.ext`, `stem_2.ext`,
/// up to `stem_999.ext`, that is not taken. Where all of them are
/// taken, the file cannot be placed.
pub fn resolve_filename_conflict(name: &str, taken: &Vec<String>) -> (r: Result<String, HvtError>)
    ensures
        match r {
            Ok(free) => resolved_name(name@, texts(taken@)) == Some(free@),
            Err(e) => resolved_name(name@, texts(taken@)) is None && (e matches HvtError::PathCreationFailed(
                msg,
            ) && msg@ == conflict_message(name@)),
        },
{
    if !is_taken(taken, name) {
        return Ok(String::from_str(name));
    }
    let (stem, extension) = split_file_name(name);
    let mut n: u32 = 1;
    while n <= MAX_SUFFIX
        invariant
            1 <= n <= MAX_SUFFIX + 1,
            texts(taken@).contains(name@),
            stem@ == file_stem(name@),
            match extension {
                Some(ext) => file_extension(name@) == Some(ext@),
                None => file_extension(name@) is None,
            },
            first_free(name@, texts(taken@), 1) == first_free(name@, texts(taken@), n as nat),
        decreases MAX_SUFFIX + 1 - n,
    {
        let candidate = with_suffix(stem.as_str(), &extension, n);
        assert(candidate@ == suffixed(name@, n as nat));
        if !is_taken(taken, candidate.as_str()) {
            return Ok(candidate);
        }
        n += 1;
    }
    Err(HvtError::PathCreationFailed(joined("Could not resolve filename conflict for ", name)))
}

/// One planned move of a file to the root of the work.
#[derive(Debug, Clone)]
pub struct Relocation {
    /// The directory that holds the file, relative to the work's
    /// folder.
    pub source_dir: String,
    /// The file's present name.
    pub source_name: String,
    /// The file's name at the root.
    pub target_name: String,
}

/// The mathematical content of a `Relocation`.
pub struct RelocationModel {
    pub source_dir: Seq<char>,
    pub source_name: Seq<char>,
    pub target_name: Seq<char>,
}

impl View for Relocation {
    type V = RelocationModel;

    open spec fn view(&self) -> RelocationModel {
        RelocationModel {
            source_dir: self.source_dir@,
            source_name: self.source_name@,
            target_name: self.target_name@,
        }
    }
}

/// The views of a sequence of moves.
pub open spec fn relocations(moves: Seq<Relocation>) -> Seq<RelocationModel> {
    moves.map_values(|m: Relocation| m@)
}

/// The names that a sequence of moves puts at the root.
pub open spec fn targets(moves: Seq<RelocationModel>) -> Seq<Seq<char>> {
    moves.map_values(|m: RelocationModel| m.target_name)
}

/// What normalization has to do for one work.
#[derive(Debug)]
pub struct NormalizationPlan {
    /// The layout that was detected.
    pub pattern: FolderPattern,
    /// The moves, in the order in which they are to be made.
    pub moves: Vec<Relocation>,
    /// The failure at which planning stopped, if it did: a file for
    /// which no free name was left. The moves before it stand.
    pub failure: Option<HvtError>,
}

/// The mathematical content of a `NormalizationPlan`.
pub struct PlanModel {
    pub pattern: FolderPattern,
    pub moves: Seq<RelocationModel>,
    /// The name that could not be placed, where planning stopped.
    pub blocked: Option<Seq<char>>,
}

/// A file moves where the layout is not flat, the file is an audio file
/// and it does not sit at the root.
pub open spec fn must_move(pattern: FolderPattern, entry: FileEntryModel) -> bool {
    pattern != FolderPattern::Flat && is_audio_name(entry.file_name) && entry.relative_dir.len() > 0
}

/// The plan after the first `k` files of the listing were considered,
/// in order. A file that must move asks for its target name; the names
/// at the root and the names given out before are taken. Planning stops
/// at the first file that cannot be placed.
pub open spec fn planned_within(listing: ListingModel, pattern: FolderPattern, k: nat) -> PlanModel
    decreases k,
{
    if k == 0 || k > listing.files.len() {
        PlanModel { pattern, moves: Seq::empty(), blocked: None }
    } else {
        let before = planned_within(listing, pattern, (k - 1) as nat);
        let entry = listing.files[k - 1];
        if before.blocked is Some || !must_move(pattern, entry) {
            before
        } else {
            let wanted = target_name(pattern, entry);
            match resolved_name(wanted, listing.root_entries + targets(before.moves)) {
                Some(free) => PlanModel {
                    pattern,
                    moves: before.moves.push(
                        RelocationModel {
                            source_dir: entry.relative_dir,
                            source_name: entry.file_name,
                            target_name: free,
                        },
                    ),
                    blocked: None,
                },
                None => PlanModel { pattern, moves: before.moves, blocked: Some(wanted) },
            }
        }
    }
}

/// The plan for a work: its layout is detected, and unless it is flat
/// every audio file in a subdirectory is given a name at the root.
pub open spec fn planned(listing: ListingModel) -> PlanModel {
    planned_within(listing, detected_pattern(listing.files), listing.files.len())
}

/// The plan carries its layout.
pub proof fn plan_keeps_pattern(listing: ListingModel, pattern: FolderPattern, k: nat)
    ensures
        planned_within(listing, pattern, k).pattern == pattern,
    decreases k,
{
    if 0 < k <= listing.files.len() {
        plan_keeps_pattern(listing, pattern, (k - 1) as nat);
    }
}

/// Nothing is moved in a flat work.
pub proof fn flat_plan_is_empty(listing: ListingModel, k: nat)
    ensures
        planned_within(listing, FolderPattern::Flat, k) == (PlanModel {
            pattern: FolderPattern::Flat,
            moves: Seq::empty(),
            blocked: None,
        }),
    decreases k,
{
    if 0 < k <= listing.files.len() {
        flat_plan_is_empty(listing, (k - 1) as nat);
    }
}

/// Once planning has stopped, the files that follow change nothing.
pub proof fn blocked_plan_is_final(listing: ListingModel, pattern: FolderPattern, k: nat, n: nat)
    requires
        k <= n <= listing.files.len(),
        planned_within(listing, pattern, k).blocked is Some,
    ensures
        planned_within(listing, pattern, n) == planned_within(listing, pattern, k),
    decreases n,
{
    if k < n {
        blocked_plan_is_final(listing, pattern, k, (n - 1) as nat);
    }
}

/// Copies a list of names.
fn copy_names(names: &Vec<String>) -> (r: Vec<String>)
    ensures
        texts(r@) == texts(names@),
{
    let mut r: Vec<String> = Vec::new();
    let mut i: usize = 0;
    while i < names.len()
        invariant
            i <= names.len(),
            texts(r@) == texts(names@).take(i as int),
        decreases names.len() - i,
    {
        let ghost before = texts(r@);
        let name = names[i].clone();
        assert(name@ == texts(names@)[i as int]);
        r.push(name);
        assert(texts(r@) =~= before.push(name@));
        assert(texts(names@).take(i + 1) =~= texts(names@).take(i as int).push(name@));
        i += 1;
    }
    assert(texts(names@).take(names@.len() as int) == texts(names@));
    r
}

/// Plans the normalization of a work's folder: detects the layout and,
/// unless it is flat, gives every audio file that sits in a
/// subdirectory a name at the root, in the order of the listing. The
/// number of moves is the number of files to relocate; none is a valid
/// outcome.
pub fn normalize_folder_structure(listing: &WorkListing) -> (plan: NormalizationPlan)
    ensures
        plan.pattern == planned(listing@).pattern,
        plan.pattern == detected_pattern(listing@.files),
        relocations(plan.moves@) == planned(listing@).moves,
        match plan.failure {
            Some(e) => planned(listing@).blocked matches Some(name) && (e matches HvtError::PathCreationFailed(
                msg,
            ) && msg@ == conflict_message(name)),
            None => planned(listing@).blocked is None,
        },
{
    let pattern = detect_folder_pattern(listing);
    let mut moves: Vec<Relocation> = Vec::new();
    let ghost model = listing@;
    proof {
        plan_keeps_pattern(model, pattern, model.files.len());
    }
    if pattern == FolderPattern::Flat {
        proof {
            flat_plan_is_empty(model, model.files.len());
            assert(relocations(moves@) =~= Seq::<RelocationModel>::empty());
        }
        return NormalizationPlan { pattern, moves, failure: None };
    }
    let mut taken = copy_names(&listing.root_entries);
    let mut i: usize = 0;
    assert(relocations(moves@) =~= Seq::<RelocationModel>::empty());
    assert(targets(relocations(moves@)) =~= Seq::<Seq<char>>::empty());
    assert(texts(taken@) =~= model.root_entries + targets(relocations(moves@)));
    while i < listing.files.len()
        invariant
            i <= listing.files.len(),
            model == listing@,
            model.files.len() == listing.files.len(),
            pattern == detected_pattern(model.files),
            pattern != FolderPattern::Flat,
            texts(taken@) == model.root_entries + targets(relocations(moves@)),
            planned_within(model, pattern, i as nat) == (PlanModel {
                pattern,
                moves: relocations(moves@),
                blocked: None,
            }),
        decreases listing.files.len() - i,
    {
        let entry = &listing.files[i];
        assert(model.files[i as int] == entry@);
        if is_audio_file_name(entry.file_name.as_str()) && !entry.relative_dir.as_str().is_empty() {
            let wanted = destination_name(pattern, entry);
            match resolve_filename_conflict(wanted.as_str(), &taken) {
                Ok(free) => {
                    let ghost old_moves = relocations(moves@);
                    let ghost old_taken = texts(taken@);
                    taken.push(free.clone());
                    moves.push(
                        Relocation {
                            source_dir: entry.relative_dir.clone(),
                            source_name: entry.file_name.clone(),
                            target_name: free,
                        },
                    );
                    assert(relocations(moves@) =~= old_moves.push(moves@.last()@));
                    assert(targets(relocations(moves@)) =~= targets(old_moves).push(free@));
                    assert(texts(taken@) =~= old_taken.push(free@));
                    assert(texts(taken@) =~= model.root_entries + targets(relocations(moves@)));
                },
                Err(e) => {
                    proof {
                        blocked_plan_is_final(
                            model,
                            pattern,
                            (i + 1) as nat,
                            model.files.len(),
                        );
                    }
                    return NormalizationPlan { pattern, moves, failure: Some(e) };
                },
            }
        }
        i += 1;
    }
    NormalizationPlan { pattern, moves, failure: None }
}

impl NormalizationPlan {
    /// The number of files that the plan relocates.
    pub fn files_moved(&self) -> (r: usize)
        ensures
            r == self.moves@.len(),
    {
        self.moves.len()
    }
}

/// A file at the root of the work, under the name that a move gave it.
pub open spec fn placed(m: RelocationModel) -> FileEntryModel {
    FileEntryModel { relative_dir: Seq::empty(), file_name: m.target_name }
}

/// The files of a work once its plan was carried out in full: a flat
/// work is as it was; in any other, the files that moved are gone from
/// their subdirectories and stand at the root under their new names.
pub open spec fn files_after(listing: ListingModel) -> Seq<FileEntryModel> {
    let plan = planned(listing);
    if plan.pattern == FolderPattern::Flat {
        listing.files
    } else {
        listing.files.filter(|f: FileEntryModel| !must_move(plan.pattern, f)) + plan.moves.map_values(
            |m: RelocationModel| placed(m),
        )
    }
}

/// Where every audio file sits at the root, no category of subfolder is
/// confirmed and the layout is flat.
pub proof fn audio_at_root_is_flat(files: Seq<FileEntryModel>)
    requires
        forall|i: int|
            0 <= i < files.len() && is_audio_name((#[trigger] files[i]).file_name)
                ==> files[i].relative_dir.len() == 0,
    ensures
        detected_pattern(files) == FolderPattern::Flat,
{
    assert forall|category: FolderPattern| !is_confirmed(files, category) by {
        if is_confirmed(files, category) {
            let i = choose|i: int|
                0 <= i < files.len() && i < files.len() && #[trigger] confirms(files[i], category);
            assert(is_audio_name(files[i].file_name));
        }
    }
}

/// Idempotence: once a plan that placed every file was carried out, the
/// work is flat and a second plan moves nothing, whatever the root of
/// the work holds by then.
pub proof fn second_run_moves_nothing(listing: ListingModel, root_entries: Seq<Seq<char>>)
    requires
        planned(listing).blocked is None,
    ensures
        ({
            let later = ListingModel { root_entries, files: files_after(listing) };
            &&& detected_pattern(later.files) == FolderPattern::Flat
            &&& planned(later).pattern == FolderPattern::Flat
            &&& planned(later).moves.len() == 0
            &&& planned(later).blocked is None
        }),
{
    let plan = planned(listing);
    let later = ListingModel { root_entries, files: files_after(listing) };
    plan_keeps_pattern(listing, detected_pattern(listing.files), listing.files.len());
    if plan.pattern != FolderPattern::Flat {
        let stay = |f: FileEntryModel| !must_move(plan.pattern, f);
        let kept = listing.files.filter(stay);
        let moved = plan.moves.map_values(|m: RelocationModel| placed(m));
        assert(later.files == kept + moved);
        assert forall|i: int|
            0 <= i < later.files.len() && is_audio_name(
                (#[trigger] later.files[i]).file_name,
            ) implies later.files[i].relative_dir.len() == 0 by {
            if i < kept.len() {
                listing.files.lemma_filter_pred(stay, i);
                assert(later.files[i] == kept[i]);
                assert(stay(kept[i]));
            } else {
                assert(later.files[i] == moved[i - kept.len()]);
            }
        }
        audio_at_root_is_flat(later.files);
    }
    flat_plan_is_empty(later, later.files.len());
}

/// No two moves of a plan share a target, and no target is a name that
/// the root held before: a move never lands on another file.
pub proof fn targets_are_fresh(listing: ListingModel, pattern: FolderPattern, k: nat)
    ensures
        ({
            let names = targets(planned_within(listing, pattern, k).moves);
            &&& forall|i: int, j: int| 0 <= i < j < names.len() ==> names[i] != names[j]
            &&& forall|i: int| 0 <= i < names.len() ==> !listing.root_entries.contains(names[i])
        }),
    decreases k,
{
    if 0 < k <= listing.files.len() {
        let before = planned_within(listing, pattern, (k - 1) as nat);
        let after = planned_within(listing, pattern, k);
        targets_are_fresh(listing, pattern, (k - 1) as nat);
        let entry = listing.files[k - 1];
        if before.blocked is None && must_move(pattern, entry) {
            let taken = listing.root_entries + targets(before.moves);
            let wanted = target_name(pattern, entry);
            resolved_name_is_free(wanted, taken);
            match resolved_name(wanted, taken) {
                Some(free) => {
                    let old_names = targets(before.moves);
                    let names = targets(after.moves);
                    assert(names =~= old_names.push(free));
                    assert forall|i: int| 0 <= i < old_names.len() implies old_names[i] != free by {
                        assert(taken[listing.root_entries.len() + i] == old_names[i]);
                    }
                    assert(!listing.root_entries.contains(free)) by {
                        if listing.root_entries.contains(free) {
                            let w = choose|w: int|
                                0 <= w < listing.root_entries.len() && listing.root_entries[w]
                                    == free;
                            assert(taken[w] == free);
                        }
                    }
                },
                None => {},
            }
        }
    }
}

/// The file that a move takes.
pub open spec fn source(m: RelocationModel) -> FileEntryModel {
    FileEntryModel { relative_dir: m.source_dir, file_name: m.source_name }
}

/// A plan that did not stop moves exactly the files that must move, in
/// the order of the listing.
pub proof fn plan_moves_what_must_move(listing: ListingModel, pattern: FolderPattern, k: nat)
    requires
        k <= listing.files.len(),
        planned_within(listing, pattern, k).blocked is None,
    ensures
        planned_within(listing, pattern, k).moves.map_values(|m: RelocationModel| source(m))
            == listing.files.take(k as int).filter(|f: FileEntryModel| must_move(pattern, f)),
    decreases k,
{
    reveal(Seq::filter);
    let moving = |f: FileEntryModel| must_move(pattern, f);
    let from = |m: RelocationModel| source(m);
    if k == 0 {
        assert(planned_within(listing, pattern, k).moves.map_values(from) =~= listing.files.take(
            0,
        ).filter(moving));
    } else {
        let before = planned_within(listing, pattern, (k - 1) as nat);
        let entry = listing.files[k - 1];
        assert(before.blocked is None);
        plan_moves_what_must_move(listing, pattern, (k - 1) as nat);
        assert(listing.files.take(k as int).drop_last() == listing.files.take(k - 1));
        assert(listing.files.take(k as int).last() == entry);
        if must_move(pattern, entry) {
            let after = planned_within(listing, pattern, k);
            assert(after.moves.map_values(from) =~= before.moves.map_values(from).push(entry));
        }
    }
}

/// An audio file name holds a period, so it is none of the directory
/// names `mp3`, `disc1` and `disc2`.
proof fn audio_name_is_no_directory_name(name: Seq<char>)
    requires
        is_audio_name(name),
    ensures
        name != "mp3"@,
        name != "disc1"@,
        name != "disc2"@,
{
    reveal_strlit("mp3");
    reveal_strlit("disc1");
    reveal_strlit("disc2");
    reveal_strlit("..");
    last_index_of_is_last(name, '.');
}

/// What the directory names `mp3`, `disc1` and `disc2` stand for.
proof fn categories_of_plain_names()
    ensures
        is_immediate("mp3"@),
        is_immediate("disc1"@),
        is_immediate("disc2"@),
        subfolder_category("mp3"@) == Some(FolderPattern::Mp3Subfolder),
        subfolder_category("disc1"@) == Some(FolderPattern::DiscSubfolders),
        subfolder_category("disc2"@) == Some(FolderPattern::DiscSubfolders),
        underscored("disc1"@) == "disc1"@,
        underscored("disc2"@) == "disc2"@,
{
    reveal_strlit("mp3");
    reveal_strlit("disc1");
    reveal_strlit("disc2");
    reveal_strlit("disc");
    reveal_strlit("cd");
    reveal_strlit("audio");
    reveal_strlit("wav");
    reveal_strlit("flac");
    reveal_strlit("ogg");
    assert(ascii_lowered("mp3"@) =~= "mp3"@);
    assert(ascii_lowered("disc1"@) =~= "disc1"@);
    assert(ascii_lowered("disc2"@) =~= "disc2"@);
    assert("disc1"@.take(4) =~= "disc"@);
    assert("disc2"@.take(4) =~= "disc"@);
    assert(underscored("disc1"@) =~= "disc1"@);
    assert(underscored("disc2"@) =~= "disc2"@);
    assert("mp3"@.len() == 3 && "audio"@.len() == 5 && "wav"@.len() == 3 && "flac"@.len() == 4
        && "ogg"@.len() == 3);
    assert("disc1"@[0] == 'd' && "audio"@[0] == 'a');
    assert("disc2"@[0] == 'd');
}

/// A work whose only entry is the subdirectory `mp3`, with one audio
/// file in it: the layout is `Mp3Subfolder`, and the plan is the one
/// move of that file to the root, under its own name.
pub proof fn single_mp3_subfolder_is_flattened(name: Seq<char>)
    requires
        is_audio_name(name),
    ensures
        planned(
            ListingModel {
                root_entries: seq!["mp3"@],
                files: seq![FileEntryModel { relative_dir: "mp3"@, file_name: name }],
            },
        ) == (PlanModel {
            pattern: FolderPattern::Mp3Subfolder,
            moves: seq![
                RelocationModel { source_dir: "mp3"@, source_name: name, target_name: name },
            ],
            blocked: None,
        }),
{
    let entry = FileEntryModel { relative_dir: "mp3"@, file_name: name };
    let listing = ListingModel { root_entries: seq!["mp3"@], files: seq![entry] };
    let files = listing.files;
    categories_of_plain_names();
    audio_name_is_no_directory_name(name);
    assert(files[0] == entry);
    assert(confirms(files[0], FolderPattern::Mp3Subfolder));
    assert(is_confirmed(files, FolderPattern::Mp3Subfolder));
    assert forall|c: FolderPattern| c != FolderPattern::Mp3Subfolder implies !is_confirmed(
        files,
        c,
    ) by {
        if is_confirmed(files, c) {
            let i = choose|i: int|
                0 <= i < files.len() && i < files.len() && #[trigger] confirms(files[i], c);
            assert(files[i] == entry);
        }
    }
    assert(detected_pattern(files) == FolderPattern::Mp3Subfolder);
    let pattern = FolderPattern::Mp3Subfolder;
    let before = planned_within(listing, pattern, 0);
    assert(before.moves =~= Seq::<RelocationModel>::empty());
    let taken = listing.root_entries + targets(before.moves);
    assert(taken =~= seq!["mp3"@]);
    assert(!taken.contains(name)) by {
        if taken.contains(name) {
            let w = choose|w: int| 0 <= w < taken.len() && taken[w] == name;
            assert(taken[w] == "mp3"@);
        }
    }
    assert(target_name(pattern, entry) == name);
    assert(resolved_name(name, taken) == Some(name));
    assert(planned_within(listing, pattern, 1).moves =~= seq![
        RelocationModel { source_dir: "mp3"@, source_name: name, target_name: name },
    ]);
}

/// A work with the subdirectories `disc1` and `disc2`, each with an
/// audio file of the same name: the layout is `DiscSubfolders`, and
/// each file moves to the root with its directory's name and an
/// underscore before its own. No number is appended.
pub proof fn disc_subfolders_keep_their_prefix(name: Seq<char>)
    requires
        is_audio_name(name),
    ensures
        planned(
            ListingModel {
                root_entries: seq!["disc1"@, "disc2"@],
                files: seq![
                    FileEntryModel { relative_dir: "disc1"@, file_name: name },
                    FileEntryModel { relative_dir: "disc2"@, file_name: name },
                ],
            },
        ) == (PlanModel {
            pattern: FolderPattern::DiscSubfolders,
            moves: seq![
                RelocationModel {
                    source_dir: "disc1"@,
                    source_name: name,
                    target_name: "disc1_"@ + name,
                },
                RelocationModel {
                    source_dir: "disc2"@,
                    source_name: name,
                    target_name: "disc2_"@ + name,
                },
            ],
            blocked: None,
        }),
{
    let first = FileEntryModel { relative_dir: "disc1"@, file_name: name };
    let second = FileEntryModel { relative_dir: "disc2"@, file_name: name };
    let listing = ListingModel {
        root_entries: seq!["disc1"@, "disc2"@],
        files: seq![first, second],
    };
    let files = listing.files;
    let pattern = FolderPattern::DiscSubfolders;
    categories_of_plain_names();
    reveal_strlit("disc1");
    reveal_strlit("disc2");
    reveal_strlit("disc1_");
    reveal_strlit("disc2_");
    assert(files[0] == first && files[1] == second);
    assert(confirms(files[0], pattern));
    assert(is_confirmed(files, pattern));
    assert forall|c: FolderPattern| c != pattern implies !is_confirmed(files, c) by {
        if is_confirmed(files, c) {
            let i = choose|i: int|
                0 <= i < files.len() && i < files.len() && #[trigger] confirms(files[i], c);
            assert(files[i] == first || files[i] == second);
        }
    }
    assert(detected_pattern(files) == pattern);
    let wanted1 = "disc1_"@ + name;
    let wanted2 = "disc2_"@ + name;
    assert(target_name(pattern, first) =~= wanted1);
    assert(target_name(pattern, second) =~= wanted2);
    assert(wanted1.len() > 5 && wanted2.len() > 5);
    assert(wanted1[4] == '1' && wanted2[4] == '2');
    let step0 = planned_within(listing, pattern, 0);
    assert(step0.moves =~= Seq::<RelocationModel>::empty());
    let taken1 = listing.root_entries + targets(step0.moves);
    assert(taken1 =~= seq!["disc1"@, "disc2"@]);
    assert(!taken1.contains(wanted1)) by {
        if taken1.contains(wanted1) {
            let w = choose|w: int| 0 <= w < taken1.len() && taken1[w] == wanted1;
            assert(taken1[w].len() == 5);
        }
    }
    let move1 = RelocationModel { source_dir: "disc1"@, source_name: name, target_name: wanted1 };
    let step1 = planned_within(listing, pattern, 1);
    assert(step1.moves =~= seq![move1]);
    assert(step1.blocked is None);
    let taken2 = listing.root_entries + targets(step1.moves);
    assert(taken2 =~= seq!["disc1"@, "disc2"@, wanted1]);
    assert(!taken2.contains(wanted2)) by {
        if taken2.contains(wanted2) {
            let w = choose|w: int| 0 <= w < taken2.len() && taken2[w] == wanted2;
            if w < 2 {
                assert(taken2[w].len() == 5);
            } else {
                assert(taken2[w][4] == '1');
            }
        }
    }
    let move2 = RelocationModel { source_dir: "disc2"@, source_name: name, target_name: wanted2 };
    assert(planned_within(listing, pattern, 2).moves =~= seq![move1, move2]);
}

} // verus!
