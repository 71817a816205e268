//! Generic key-value cache with per-entry expiry (`kv_cache`).
use vstd::prelude::*;

verus! {

pub struct KvCacheRepo;

impl KvCacheRepo {
    /// An entry is served unless it has an expiry strictly before `now`.
    pub open spec fn spec_is_fresh(expires_ts: Option<i64>, now: i64) -> bool {
        match expires_ts {
            None => true,
            Some(e) => !(e < now),
        }
    }

    pub fn is_fresh(expires_ts: Option<i64>, now: i64) -> (r: bool)
        ensures
            r == Self::spec_is_fresh(expires_ts, now),
    {
        match expires_ts {
            None => true,
            Some(e) => !(e < now),
        }
    }

    /// What a lookup answers for a stored `(value, expires_ts)` row read
    /// at `now`: the value while fresh, nothing once expired or absent.
    pub open spec fn spec_cached_value(row: Option<(Vec<u8>, Option<i64>)>, now: i64) -> Option<
        Vec<u8>,
    > {
        match row {
            None => None,
            Some((value, expires_ts)) => if Self::spec_is_fresh(expires_ts, now) {
                Some(value)
            } else {
                None
            },
        }
    }

    pub fn cached_value(row: Option<(Vec<u8>, Option<i64>)>, now: i64) -> (r: Option<Vec<u8>>)
        ensures
            r == Self::spec_cached_value(row, now),
    {
        match row {
            None => None,
            Some((value, expires_ts)) => {
                if Self::is_fresh(expires_ts, now) {
                    Some(value)
                } else {
                    None
                }
            },
        }
    }

    /// The expiry stored for an entry written at `now` with a TTL of
    /// `ttl_secs`: the TTL is taken as `i64` (reinterpreting values above
    /// `i64::MAX`) and added to `now`.
    pub open spec fn spec_expiry(now: i64, ttl_secs: u64) -> int {
        now + (ttl_secs as i64)
    }

    pub fn expiry(now: i64, ttl_secs: u64) -> (r: i64)
        requires
            i64::MIN <= Self::spec_expiry(now, ttl_secs) <= i64::MAX,
        ensures
            r == Self::spec_expiry(now, ttl_secs),
    {
        now + ttl_secs as i64
    }
}

/// An entry written at `now` with a TTL of `ttl_secs` (within `i64`) is
/// served by every lookup at a time `t` up to `now + ttl_secs`, and by
/// none after: in particular it is served right after being written.
pub proof fn lemma_entry_lifetime(now: i64, ttl_secs: u64, t: i64)
    requires
        ttl_secs <= i64::MAX,
        KvCacheRepo::spec_expiry(now, ttl_secs) <= i64::MAX,
    ensures
        KvCacheRepo::spec_is_fresh(
            Some(KvCacheRepo::spec_expiry(now, ttl_secs) as i64),
            t,
        ) <==> t <= now + ttl_secs,
        KvCacheRepo::spec_is_fresh(Some(KvCacheRepo::spec_expiry(now, ttl_secs) as i64), now),
{
}

/// A value stored at `written_at` with a TTL of `ttl_secs` (within `i64`)
/// is read back unchanged by every lookup up to `written_at + ttl_secs`,
/// and by none after.
pub proof fn lemma_set_then_get(value: Vec<u8>, written_at: i64, ttl_secs: u64, t: i64)
    requires
        ttl_secs <= i64::MAX,
        KvCacheRepo::spec_expiry(written_at, ttl_secs) <= i64::MAX,
    ensures
        t <= written_at + ttl_secs ==> KvCacheRepo::spec_cached_value(
            Some((value, Some(KvCacheRepo::spec_expiry(written_at, ttl_secs) as i64))),
            t,
        ) == Some(value),
        t > written_at + ttl_secs ==> KvCacheRepo::spec_cached_value(
            Some((value, Some(KvCacheRepo::spec_expiry(written_at, ttl_secs) as i64))),
            t,
        ) is None,
{
    lemma_entry_lifetime(written_at, ttl_secs, t);
}

} // verus!
