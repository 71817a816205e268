//! Price history (`price_points`, daily rollups in `price_daily`).
use vstd::prelude::*;

verus! {

/// Seconds in one day.
pub const DAY_SECONDS: i64 = 86_400;

pub struct PriceDailyRepo;

impl PriceDailyRepo {
    /// The half-open timestamp range `[start, end)` of day number `day`
    /// (days counted from the Unix epoch).
    pub fn day_bounds(day: i64) -> (r: (i64, i64))
        requires
            i64::MIN <= day * 86_400,
            day * 86_400 + 86_400 <= i64::MAX,
        ensures
            r.0 == day * 86_400,
            r.1 == r.0 + 86_400,
    {
        let day_start = day * DAY_SECONDS;
        let day_end = day_start + DAY_SECONDS;
        (day_start, day_end)
    }
}

} // verus!
