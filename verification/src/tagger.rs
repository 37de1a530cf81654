//! Tagging of audio files: track numbers, folder layout, and the
//! interactive choice of a parsing strategy.

pub mod cover_art;
pub mod folder_normalizer;
pub mod interactive_parser;
pub mod track_parser;
pub mod types;
