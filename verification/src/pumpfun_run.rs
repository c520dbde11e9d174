//! The PumpFun bonding-curve loop: buy, hold, sell the wallet's whole balance of the mint,
//! rest, for a fixed number of rounds.
use vstd::prelude::*;
use crate::cycle::{CyclePlan, SellSizing};

verus! {

/// Seconds to hold after a buy, and to rest after a sell.
pub const REST_SECS: u64 = 30;

/// Number of rounds.
pub const ROUNDS: u32 = 1;

/// Seconds to hold after a buy, and to rest after a sell.
pub fn rest_secs() -> (r: u64)
    ensures
        r == REST_SECS,
{
    REST_SECS
}

/// Number of buy/sell rounds.
pub fn rounds() -> (r: u32)
    ensures
        r == ROUNDS,
{
    ROUNDS
}

/// The cycle this loop runs: `ROUNDS` rounds, holding and resting `REST_SECS`, selling the
/// full balance, refreshing the sell nonce when durable nonces are used.
pub fn cycle_plan(uses_durable_nonce: bool) -> (p: CyclePlan)
    ensures
        p == (CyclePlan {
            rounds: ROUNDS,
            hold_secs: REST_SECS,
            rest_secs: REST_SECS,
            sizing: SellSizing::FullBalance,
            refresh_sell_nonce: uses_durable_nonce,
        }),
{
    CyclePlan {
        rounds: rounds(),
        hold_secs: rest_secs(),
        rest_secs: rest_secs(),
        sizing: SellSizing::FullBalance,
        refresh_sell_nonce: uses_durable_nonce,
    }
}

/// Whether the buy has to create the wallet's token account for the mint: only when it
/// does not exist yet.
pub fn create_mint_ata(mint_ata_exists: bool) -> (r: bool)
    ensures
        r == !mint_ata_exists,
{
    !mint_ata_exists
}

} // verus!
