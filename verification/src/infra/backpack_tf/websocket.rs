//! The live listing feed: which frames matter, and the reconnect backoff.
use vstd::prelude::*;
use crate::text::str_eq;

verus! {

/// Longest wait between reconnect attempts, in seconds.
pub const MAX_BACKOFF_SECS: u64 = 60;

/// What a feed envelope reports about its listing.
#[derive(Debug, Clone, Copy, PartialEq, Eq, Structural)]
pub enum ListingChange {
    Upserted,
    Deleted,
}

/// `listing-update` creates or updates a listing, `listing-delete` removes
/// it; every other event type is ignored.
pub open spec fn spec_classify_event(event: Seq<char>) -> Option<ListingChange> {
    if event == "listing-update"@ {
        Some(ListingChange::Upserted)
    } else if event == "listing-delete"@ {
        Some(ListingChange::Deleted)
    } else {
        None
    }
}

pub fn classify_event(event: &str) -> (r: Option<ListingChange>)
    ensures
        r == spec_classify_event(event@),
{
    if str_eq(event, "listing-update") {
        Some(ListingChange::Upserted)
    } else if str_eq(event, "listing-delete") {
        Some(ListingChange::Deleted)
    } else {
        None
    }
}

/// The wait after `backoff_secs`: doubled, capped at a minute.
pub open spec fn spec_next_backoff(backoff_secs: u64) -> u64 {
    if 2 * backoff_secs < 60 {
        (2 * backoff_secs) as u64
    } else {
        60
    }
}

pub fn next_backoff(backoff_secs: u64) -> (r: u64)
    requires
        backoff_secs <= u64::MAX / 2,
    ensures
        r == spec_next_backoff(backoff_secs),
{
    let doubled = backoff_secs * 2;
    if doubled < MAX_BACKOFF_SECS {
        doubled
    } else {
        MAX_BACKOFF_SECS
    }
}

/// What the feed runner does after a connection ended.
#[derive(Debug, Clone, Copy, PartialEq, Eq, Structural)]
pub enum ReconnectStep {
    /// Nobody listens any more: stop for good.
    Stop,
    /// Sleep `wait_secs`, reconnect, and wait `next_backoff_secs` after
    /// the next drop.
    Wait { wait_secs: u64, next_backoff_secs: u64 },
}

/// After a dropped connection: stop once the receiver is gone, otherwise
/// wait the current backoff and double it for next time.
pub fn after_disconnect(receiver_closed: bool, backoff_secs: u64) -> (r: ReconnectStep)
    requires
        backoff_secs <= u64::MAX / 2,
    ensures
        r == (if receiver_closed {
            ReconnectStep::Stop
        } else {
            ReconnectStep::Wait {
                wait_secs: backoff_secs,
                next_backoff_secs: spec_next_backoff(backoff_secs),
            }
        }),
{
    if receiver_closed {
        ReconnectStep::Stop
    } else {
        ReconnectStep::Wait { wait_secs: backoff_secs, next_backoff_secs: next_backoff(backoff_secs) }
    }
}

/// Starting from one second, the reconnect wait never drops below a
/// second, never exceeds a minute, never shrinks, and reaches the minute
/// cap after at most six reconnects.
pub proof fn lemma_backoff_bounds(b: u64)
    requires
        1 <= b <= 60,
    ensures
        1 <= spec_next_backoff(b) <= 60,
        b <= spec_next_backoff(b),
        b >= 32 ==> spec_next_backoff(b) == 60,
        spec_next_backoff(spec_next_backoff(spec_next_backoff(spec_next_backoff(
            spec_next_backoff(spec_next_backoff(b)),
        )))) == 60,
{
}

} // verus!
