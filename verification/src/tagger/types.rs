//! The values that tagging works with.

use vstd::prelude::*;
use crate::errors::HvtError;
use crate::text::{joined, lowered, same_text, lowercase};

verus! {

/// The age rating of a work.
#[derive(Debug, Clone, Copy, PartialEq, Eq, Structural)]
pub enum AgeCategory {
    Other,
    AllAge,
    R15,
    R18,
}

/// The rating that a number of the shop stands for: 1 is all ages, 3 is
/// adults only, and any other number is unknown.
pub open spec fn age_category_of(i: u32) -> AgeCategory {
    if i == 1 {
        AgeCategory::AllAge
    } else if i == 3 {
        AgeCategory::R18
    } else {
        AgeCategory::Other
    }
}

impl AgeCategory {
    /// Reads the rating from the shop's number.
    pub fn from_int(i: u32) -> (r: Self)
        ensures
            r == age_category_of(i),
    {
        if i == 1 {
            AgeCategory::AllAge
        } else if i == 3 {
            AgeCategory::R18
        } else {
            AgeCategory::Other
        }
    }

    /// The rating in words.
    pub open spec fn label(self) -> Seq<char> {
        match self {
            AgeCategory::Other => "Other"@,
            AgeCategory::AllAge => "All Ages"@,
            AgeCategory::R15 => "R15"@,
            AgeCategory::R18 => "R18"@,
        }
    }

    /// Writes the rating in words.
    pub fn to_text(&self) -> (r: String)
        ensures
            r@ == self.label(),
    {
        match self {
            AgeCategory::Other => String::from_str("Other"),
            AgeCategory::AllAge => String::from_str("All Ages"),
            AgeCategory::R15 => String::from_str("R15"),
            AgeCategory::R18 => String::from_str("R18"),
        }
    }
}

impl Default for AgeCategory {
    /// A work is for adults unless the shop says otherwise.
    fn default() -> (r: Self)
        ensures
            r == AgeCategory::R18,
    {
        AgeCategory::R18
    }
}

/// A work as the database describes it.
#[derive(Debug, Clone)]
pub struct Work {
    pub rjcode: String,
    pub name: String,
    pub age_category: AgeCategory,
    pub circle_name: String,
    pub circle_code: String,
    pub image_link: String,
    pub release_date: String,
    pub seiyuu: Vec<String>,
    pub tags: Vec<String>,
}

/// What is written into the tags of one audio file.
#[derive(Debug, Clone)]
pub struct AudioMetadata {
    /// The work's name.
    pub title: String,
    /// The voice actors.
    pub artists: Vec<String>,
    /// The work's name.
    pub album: String,
    /// The circle's name.
    pub album_artist: String,
    /// The track number parsed from the file name.
    pub track_number: Option<u32>,
    /// The shop's tags.
    pub genre: Vec<String>,
    /// The release date.
    pub date: Option<String>,
}

/// The settings of a tagging run.
#[derive(Debug, Clone, Copy)]
pub struct TaggerConfig {
    /// Convert the files to MP3.
    pub convert_to_mp3: bool,
    /// The bitrate of converted files, in kbit/s.
    pub target_bitrate: u32,
    /// Download the cover.
    pub download_cover: bool,
    /// The cover's width and height.
    pub cover_size: (u32, u32),
}

impl Default for TaggerConfig {
    fn default() -> (r: Self)
        ensures
            !r.convert_to_mp3,
            r.target_bitrate == 320,
            r.download_cover,
            r.cover_size == (300u32, 300u32),
    {
        TaggerConfig {
            convert_to_mp3: false,
            target_bitrate: 320,
            download_cover: true,
            cover_size: (300, 300),
        }
    }
}

/// The audio formats that are told apart.
#[derive(Debug, Clone, Copy, PartialEq, Eq, Structural)]
pub enum AudioFormat {
    Mp3,
    Flac,
    Wav,
    Ogg,
    Unknown,
}

/// The format that a lowered extension stands for.
pub open spec fn format_of_lowered(lower: Seq<char>) -> AudioFormat {
    if lower == "mp3"@ {
        AudioFormat::Mp3
    } else if lower == "flac"@ {
        AudioFormat::Flac
    } else if lower == "wav"@ {
        AudioFormat::Wav
    } else if lower == "ogg"@ {
        AudioFormat::Ogg
    } else {
        AudioFormat::Unknown
    }
}

impl AudioFormat {
    /// The format of a file extension, whatever its case.
    pub fn from_extension(ext: &str) -> (r: Self)
        ensures
            r == format_of_lowered(lowered(ext@)),
    {
        let lowered = lowercase(ext);
        let lower = lowered.as_str();
        if same_text(lower, "mp3") {
            AudioFormat::Mp3
        } else if same_text(lower, "flac") {
            AudioFormat::Flac
        } else if same_text(lower, "wav") {
            AudioFormat::Wav
        } else if same_text(lower, "ogg") {
            AudioFormat::Ogg
        } else {
            AudioFormat::Unknown
        }
    }
}

/// Why a file of a format is not tagged, if it is not: only MP3 files
/// are.
pub open spec fn tagging_refusal(format: AudioFormat, file_path: Seq<char>) -> Option<Seq<char>> {
    match format {
        AudioFormat::Mp3 => None,
        AudioFormat::Flac => Some(
            "FLAC files are not supported for tagging. Please convert to MP3 first using --convert flag. File: "@
                + file_path,
        ),
        _ => Some("Unsupported audio format for file: "@ + file_path),
    }
}

impl AudioFormat {
    /// Tells whether a file of this format can be tagged. MP3 files
    /// can; for any other format the error says why not and names the
    /// file.
    pub fn check_taggable(&self, file_path: &str) -> (r: Result<(), HvtError>)
        ensures
            match r {
                Ok(_) => tagging_refusal(*self, file_path@) is None,
                Err(e) => e matches HvtError::AudioTag(msg) && tagging_refusal(*self, file_path@)
                    == Some(msg@),
            },
    {
        match self {
            AudioFormat::Mp3 => Ok(()),
            AudioFormat::Flac => Err(
                HvtError::AudioTag(
                    joined(
                        "FLAC files are not supported for tagging. Please convert to MP3 first using --convert flag. File: ",
                        file_path,
                    ),
                ),
            ),
            _ => Err(HvtError::AudioTag(joined("Unsupported audio format for file: ", file_path))),
        }
    }
}

} // verus!
