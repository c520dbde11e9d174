use pump_trader::address::Address;
use pump_trader::blockhash::{BlockhashError, CachedBlockhash, MAX_BLOCKHASH_AGE_SECS};

#[test]
fn cached_blockhash_expires_after_twenty_seconds() {
    let c = CachedBlockhash { hash: Address::new([9u8; 32]), fetched_at_ns: 1_000_000_000 };
    assert!(c.latest(1_000_000_000).unwrap().same(&Address::new([9u8; 32])));
    assert!(c.latest(21_000_000_000).is_ok());
    // a single nanosecond past twenty seconds is already too old
    assert_eq!(
        c.latest(21_000_000_001).unwrap_err(),
        BlockhashError::Stale { max_age_secs: MAX_BLOCKHASH_AGE_SECS }
    );
    // A clock behind the fetch time counts as no time elapsed.
    assert!(c.latest(0).is_ok());
}
