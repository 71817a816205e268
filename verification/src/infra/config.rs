//! User-editable application configuration and the filesystem locations the
//! application reads and writes. Reading and writing the TOML file, and
//! asking the OS for its base directories, happen in the application layer.
use vstd::prelude::*;
use std::path::PathBuf;
use crate::domain::steam_id::SteamId64;
use crate::error::AppError;

verus! {

/// The configuration file's name inside the configuration directory.
pub const CONFIG_FILE_NAME: &'static str = "config.toml";

/// The database file's name inside the data directory.
pub const DB_FILE_NAME: &'static str = "tf2-terminal.db";

/// The log directory's name inside the data directory.
pub const LOG_DIR_NAME: &'static str = "logs";

/// The application's own directory under each OS base directory.
pub const APP_DIR_NAME: &'static str = "tf2-terminal";

/// User-editable application configuration. Never holds secrets; the
/// Steam ID is public and is set after a successful login.
#[derive(Debug, Clone)]
pub struct Config {
    pub log_level: String,
    pub market_poll_interval_secs: u32,
    pub inventory_refresh_interval_secs: u32,
    pub steam_id: Option<SteamId64>,
}

impl Default for Config {
    /// Info-level logging, market polling every minute, inventory refresh
    /// every five minutes, nobody logged in.
    fn default() -> (c: Config)
        ensures
            c.log_level@ == "info"@,
            c.market_poll_interval_secs == 60,
            c.inventory_refresh_interval_secs == 300,
            c.steam_id is None,
    {
        Config {
            log_level: String::from_str("info"),
            market_poll_interval_secs: 60,
            inventory_refresh_interval_secs: 300,
            steam_id: None,
        }
    }
}

#[verifier::external_type_specification]
#[verifier::external_body]
pub struct ExPathBuf(PathBuf);

/// What `Path::join` gives for a base path and a relative name.
pub uninterp spec fn path_joined(base: PathBuf, name: Seq<char>) -> PathBuf;

/// `Path::join`: the path `name` taken relative to `base`. Depends on
/// nothing but its arguments.
#[verifier::external_body]
fn join_path(base: &PathBuf, name: &str) -> (p: PathBuf)
    ensures
        p == path_joined(*base, name@),
{
    base.join(name)
}

/// The directories the application reads and writes.
#[derive(Debug)]
pub struct AppPaths {
    pub config_dir: PathBuf,
    pub data_dir: PathBuf,
}

impl AppPaths {
    /// The application's directories under the OS configuration and data
    /// base directories; fails with a configuration error naming the base
    /// directory that could not be resolved (the configuration one first).
    pub fn from_base_dirs(config_base: Option<PathBuf>, data_base: Option<PathBuf>) -> (r: Result<
        AppPaths,
        AppError,
    >)
        ensures
            match (config_base, data_base) {
                (Some(c), Some(d)) => r matches Ok(p) && p.config_dir == path_joined(
                    c,
                    APP_DIR_NAME@,
                ) && p.data_dir == path_joined(d, APP_DIR_NAME@),
                (None, _) => r matches Err(AppError::Config(m)) && m@
                    == "could not resolve OS config directory"@,
                (Some(_), None) => r matches Err(AppError::Config(m)) && m@
                    == "could not resolve OS data directory"@,
            },
    {
        let config_dir = match config_base {
            Some(c) => join_path(&c, APP_DIR_NAME),
            None => {
                return Err(AppError::Config(String::from_str("could not resolve OS config directory")));
            },
        };
        let data_dir = match data_base {
            Some(d) => join_path(&d, APP_DIR_NAME),
            None => {
                return Err(AppError::Config(String::from_str("could not resolve OS data directory")));
            },
        };
        Ok(AppPaths { config_dir, data_dir })
    }

    /// The configuration file inside the configuration directory.
    pub fn config_file(&self) -> (p: PathBuf)
        ensures
            p == path_joined(self.config_dir, CONFIG_FILE_NAME@),
    {
        join_path(&self.config_dir, CONFIG_FILE_NAME)
    }

    /// The database file inside the data directory.
    pub fn db_file(&self) -> (p: PathBuf)
        ensures
            p == path_joined(self.data_dir, DB_FILE_NAME@),
    {
        join_path(&self.data_dir, DB_FILE_NAME)
    }

    /// The log directory inside the data directory.
    pub fn log_dir(&self) -> (p: PathBuf)
        ensures
            p == path_joined(self.data_dir, LOG_DIR_NAME@),
    {
        join_path(&self.data_dir, LOG_DIR_NAME)
    }
}

} // verus!
