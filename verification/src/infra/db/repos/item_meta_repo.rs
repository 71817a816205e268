//! The user's own notes on an asset (`item_meta`).
use vstd::prelude::*;

verus! {

/// Folder, pins and notes the user attached to an asset; an asset
/// without a row reads as the default (nothing set).
#[derive(Debug, Clone, Default, PartialEq, Eq)]
pub struct ItemMeta {
    pub folder: Option<String>,
    pub pinned: bool,
    pub favorite: bool,
    pub note: Option<String>,
    pub custom_label: Option<String>,
}

} // verus!
