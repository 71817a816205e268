//! One module per outside system the application talks to.
pub mod backpack_tf;
pub mod config;
pub mod db;
pub mod export;
pub mod keychain;
pub mod plugins;
pub mod steam;
