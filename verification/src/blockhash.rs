//! The cached recent blockhash that the shred-stream sniper refreshes in the background.
use vstd::prelude::*;
use crate::address::Address;

verus! {

/// How often the cache is refreshed, in milliseconds.
pub const BLOCKHASH_REFRESH_INTERVAL_MS: u64 = 400;

/// The oldest cached blockhash still used, in seconds.
pub const MAX_BLOCKHASH_AGE_SECS: u64 = 20;

/// A blockhash and when it was fetched.
#[derive(Debug, Clone, Copy)]
pub struct CachedBlockhash {
    pub hash: Address,
    /// When the hash was fetched, in nanoseconds.
    pub fetched_at_ns: u64,
}

/// Why the cached blockhash cannot be used.
#[derive(Debug, Clone, Copy, PartialEq, Eq, Structural)]
pub enum BlockhashError {
    /// The cached hash is older than `max_age_secs` seconds.
    Stale { max_age_secs: u64 },
}

/// Nanoseconds elapsed from `since_ns` to `now_ns` (none when `now_ns` is earlier).
pub open spec fn elapsed_ns(since_ns: u64, now_ns: u64) -> int {
    if now_ns >= since_ns {
        now_ns - since_ns
    } else {
        0
    }
}

impl CachedBlockhash {
    /// The cached hash at `now_ns`, unless more than the maximum age has passed since it was
    /// fetched (counted to the nanosecond).
    pub fn latest(&self, now_ns: u64) -> (r: Result<Address, BlockhashError>)
        ensures
            elapsed_ns(self.fetched_at_ns, now_ns) > MAX_BLOCKHASH_AGE_SECS * 1_000_000_000 ==> r == Err::<
                Address,
                BlockhashError,
            >(BlockhashError::Stale { max_age_secs: MAX_BLOCKHASH_AGE_SECS }),
            elapsed_ns(self.fetched_at_ns, now_ns) <= MAX_BLOCKHASH_AGE_SECS * 1_000_000_000 ==> r == Ok::<
                Address,
                BlockhashError,
            >(self.hash),
    {
        let elapsed = now_ns.saturating_sub(self.fetched_at_ns);
        if elapsed > MAX_BLOCKHASH_AGE_SECS * 1_000_000_000 {
            return Err(BlockhashError::Stale { max_age_secs: MAX_BLOCKHASH_AGE_SECS });
        }
        Ok(self.hash)
    }
}

} // verus!
