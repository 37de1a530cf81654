//! What the organizer keeps in its database.

pub mod custom_circles;
pub mod sql;
pub mod tables;
