//! Freshness of streamed events.
use vstd::prelude::*;

verus! {

/// An event received at `recv_us` (microseconds) is fresh at `now_us` when it carries a
/// positive timestamp, does not lie in the future, and is at most `max_age_ms` old.
pub open spec fn spec_event_fresh(recv_us: i64, now_us: i64, max_age_ms: u64) -> bool {
    &&& recv_us > 0
    &&& now_us >= recv_us
    &&& max_age_ms <= i64::MAX
    &&& now_us - recv_us <= max_age_ms * 1000
}

/// Whether an event received at `recv_us` may still be acted upon at `now_us`.
pub fn is_event_fresh(recv_us: i64, now_us: i64, max_age_ms: u64) -> (fresh: bool)
    ensures
        fresh == spec_event_fresh(recv_us, now_us, max_age_ms),
{
    if recv_us <= 0 || now_us < recv_us {
        return false;
    }
    if max_age_ms > 0x7fff_ffff_ffff_ffffu64 {
        return false;
    }
    let age: u128 = (now_us as i128 - recv_us as i128) as u128;
    let limit: u128 = (max_age_ms as u128) * 1000;
    age <= limit
}

/// Law: an event with no timestamp, or one from the future, is never fresh; otherwise it is
/// fresh exactly while its age in microseconds is at most the limit in milliseconds times a
/// thousand, so raising the limit never makes a fresh event stale.
pub proof fn law_freshness_is_an_age_limit(recv_us: i64, now_us: i64, max_age_ms: u64, larger_ms: u64)
    ensures
        recv_us <= 0 ==> !spec_event_fresh(recv_us, now_us, max_age_ms),
        now_us < recv_us ==> !spec_event_fresh(recv_us, now_us, max_age_ms),
        recv_us > 0 && now_us >= recv_us && max_age_ms <= i64::MAX ==> (spec_event_fresh(
            recv_us,
            now_us,
            max_age_ms,
        ) <==> now_us - recv_us <= max_age_ms * 1000),
        spec_event_fresh(recv_us, now_us, max_age_ms) && max_age_ms <= larger_ms <= i64::MAX
            ==> spec_event_fresh(recv_us, now_us, larger_ms),
        recv_us > 0 && max_age_ms <= i64::MAX ==> spec_event_fresh(recv_us, recv_us, max_age_ms),
{
}

} // verus!
