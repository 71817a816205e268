//! The crate's error type. Each variant carries a human-readable message.
use vstd::prelude::*;

verus! {

/// Failure of an application operation, grouped by where it came from.
#[derive(Debug, Clone, PartialEq, Eq)]
pub enum AppError {
    /// Configuration, login or user-supplied settings are missing or invalid.
    Config(String),
    /// A remote service failed or answered with something unusable.
    Network(String),
    /// An invariant of the application itself was broken at run time.
    Internal(String),
    /// An export could not be produced.
    Export(String),
    /// The local database failed.
    Database(String),
    /// The file system failed.
    Io(String),
    /// The OS credential store failed.
    Keychain(String),
}

} // verus!
