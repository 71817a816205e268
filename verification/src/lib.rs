//! A Team Fortress 2 trading terminal's verified core: the item model and
//! the rules for reading Steam and backpack.tf data, building database
//! queries, exporting tables, logging in and hosting plugins.
pub mod domain;
pub mod error;
pub mod infra;
pub mod text;
