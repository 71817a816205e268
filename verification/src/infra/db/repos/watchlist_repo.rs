//! The user's watchlist (`watchlist`).
use vstd::prelude::*;

verus! {

/// A watched item with its catalog name.
#[derive(Debug, Clone, PartialEq, Eq)]
pub struct WatchlistItemRow {
    pub item_id: i64,
    pub item_name: String,
    pub added_ts: i64,
}

} // verus!
