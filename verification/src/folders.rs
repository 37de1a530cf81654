//! The folders of works that the organizer manages.

pub mod types;
