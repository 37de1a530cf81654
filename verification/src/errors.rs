//! The error type of the library.

use vstd::prelude::*;
use crate::folders::types::RJCode;
use crate::text::joined;

verus! {

/// What can go wrong while works are scanned, looked up and tagged.
#[derive(Debug)]
pub enum HvtError {
    /// The file system refused an operation; the payload is what it
    /// reported.
    Io(String),
    /// A request over HTTP failed.
    Http(String),
    /// The database refused an operation; the payload is what it
    /// reported.
    Database(String),
    /// A text could not be read as what it should be.
    Parse(String),
    /// The work is no longer on sale.
    RemovedWork(RJCode),
    /// A folder could not be read.
    FolderReading(String),
    /// The operating system is not supported.
    UnsupportedOS(String),
    /// No path could be made for a file.
    PathCreationFailed(String),
    /// An environment variable is not set.
    UnavailableEnvVariable(String),
    /// An audio file could not be tagged.
    AudioTag(String),
    /// An audio file could not be converted.
    AudioConversion(String),
    /// An image could not be processed.
    Image(String),
    /// Any other failure.
    Generic(String),
}

/// The words that introduce each kind of error in its message.
pub open spec fn message_prefix(e: HvtError) -> Seq<char> {
    match e {
        HvtError::Io(_) => "IO error: "@,
        HvtError::Http(_) => "HTTP error: "@,
        HvtError::Database(_) => "Database error: "@,
        HvtError::Parse(_) => "Parse error: "@,
        HvtError::RemovedWork(_) => "Work "@,
        HvtError::FolderReading(_) => "Folder reading error: "@,
        HvtError::UnsupportedOS(_) => "Operating System not supported: "@,
        HvtError::PathCreationFailed(_) => "Path creation failed: "@,
        HvtError::UnavailableEnvVariable(_) => "Environment variable unavailable: "@,
        HvtError::AudioTag(_) => "Audio tagging error: "@,
        HvtError::AudioConversion(_) => "Audio conversion error: "@,
        HvtError::Image(_) => "Image processing error: "@,
        HvtError::Generic(_) => "Generic error: "@,
    }
}

/// The text that each error carries.
pub open spec fn message_detail(e: HvtError) -> Seq<char> {
    match e {
        HvtError::Io(s) => s@,
        HvtError::Http(s) => s@,
        HvtError::Database(s) => s@,
        HvtError::Parse(s) => s@,
        HvtError::RemovedWork(code) => code@ + " removed from DLSite"@,
        HvtError::FolderReading(s) => s@,
        HvtError::UnsupportedOS(s) => s@,
        HvtError::PathCreationFailed(s) => s@,
        HvtError::UnavailableEnvVariable(s) => s@,
        HvtError::AudioTag(s) => s@,
        HvtError::AudioConversion(s) => s@,
        HvtError::Image(s) => s@,
        HvtError::Generic(s) => s@,
    }
}

impl HvtError {
    /// The message of the error, for people to read.
    pub fn message(&self) -> (r: String)
        ensures
            r@ == message_prefix(*self) + message_detail(*self),
    {
        match self {
            HvtError::Io(s) => joined("IO error: ", s.as_str()),
            HvtError::Http(s) => joined("HTTP error: ", s.as_str()),
            HvtError::Database(s) => joined("Database error: ", s.as_str()),
            HvtError::Parse(s) => joined("Parse error: ", s.as_str()),
            HvtError::RemovedWork(code) => {
                let detail = joined(code.as_str(), " removed from DLSite");
                joined("Work ", detail.as_str())
            },
            HvtError::FolderReading(s) => joined("Folder reading error: ", s.as_str()),
            HvtError::UnsupportedOS(s) => joined("Operating System not supported: ", s.as_str()),
            HvtError::PathCreationFailed(s) => joined("Path creation failed: ", s.as_str()),
            HvtError::UnavailableEnvVariable(s) => joined(
                "Environment variable unavailable: ",
                s.as_str(),
            ),
            HvtError::AudioTag(s) => joined("Audio tagging error: ", s.as_str()),
            HvtError::AudioConversion(s) => joined("Audio conversion error: ", s.as_str()),
            HvtError::Image(s) => joined("Image processing error: ", s.as_str()),
            HvtError::Generic(s) => joined("Generic error: ", s.as_str()),
        }
    }
}

} // verus!
