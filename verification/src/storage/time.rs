//! Expiry of timestamps in milliseconds.

use vstd::prelude::*;

verus! {

/// Whether a timestamp taken at `timestamp` is more than `ttl_ms` old at
/// `now_ms`; a timestamp from the future is not.
pub open spec fn expired(now_ms: u64, timestamp: u64, ttl_ms: u64) -> bool {
    now_ms > timestamp && now_ms - timestamp > ttl_ms
}

/// Whether a timestamp taken at `timestamp` is older than `ttl_ms` at time `now_ms`.
pub fn is_expired_at(now_ms: u64, timestamp: u64, ttl_ms: u64) -> (r: bool)
    ensures
        r == expired(now_ms, timestamp, ttl_ms),
{
    now_ms.saturating_sub(timestamp) > ttl_ms
}

/// Once expired, a timestamp stays expired as time goes on, and a longer
/// time to live never expires it sooner.
pub proof fn law_expiry_is_monotonic(now: u64, later: u64, timestamp: u64, ttl: u64, longer: u64)
    requires
        now <= later,
        ttl <= longer,
    ensures
        expired(now, timestamp, ttl) ==> expired(later, timestamp, ttl),
        expired(now, timestamp, longer) ==> expired(now, timestamp, ttl),
{
}

} // verus!
