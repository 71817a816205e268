//! Installed plugins (`plugins`).
use vstd::prelude::*;

verus! {

/// A plugin to record as installed; it is stored enabled.
#[derive(Debug, Clone, Copy, PartialEq, Eq)]
pub struct InsertPlugin<'a> {
    pub name: &'a str,
    pub version: &'a str,
    pub entry_file: &'a str,
    pub capabilities_json: &'a str,
    pub events_json: &'a str,
    pub has_panel: bool,
    pub installed_ts: i64,
}

/// An installed plugin.
#[derive(Debug, Clone, PartialEq, Eq)]
pub struct PluginRow {
    pub id: i64,
    pub name: String,
    pub version: String,
    pub entry_file: String,
    pub capabilities_json: String,
    pub events_json: String,
    pub has_panel: bool,
    pub enabled: bool,
    pub installed_ts: i64,
}

} // verus!
