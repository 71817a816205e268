//! The local SQLite database.
pub mod repos;
