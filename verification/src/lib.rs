//! Organizer for directories of purchased audio works: track-number
//! extraction from file names, the learned per-work parsing preference,
//! and the planning that flattens a work's directory tree.

pub mod config;
pub mod database;
pub mod dlsite;
pub mod errors;
pub mod file_name;
pub mod folders;
pub mod pattern;
pub mod tagger;
pub mod text;
pub mod types;
pub mod vpn;
