//! The domain model: items, Steam accounts and plugin capabilities.
pub mod item;
pub mod plugin;
pub mod steam_id;
