//! The PumpSwap pool loop: buy, hold, sell the wallet's whole balance of the mint, rest, for
//! a fixed number of rounds.
use vstd::prelude::*;
use crate::address::Address;
use crate::cycle::{CyclePlan, SellSizing};

verus! {

/// Seconds to hold after a buy, and to rest after a sell.
pub const REST_SECS: u64 = 30;

/// Number of rounds.
pub const ROUNDS: u32 = 1;

/// Seconds to hold after a buy, and to rest after a sell.
pub fn rest_secs() -> (r: u64)
    ensures
        r == REST_SECS,
{
    REST_SECS
}

/// Number of buy/sell rounds.
pub fn rounds() -> (r: u32)
    ensures
        r == ROUNDS,
{
    ROUNDS
}

/// The cycle this loop runs: `ROUNDS` rounds, holding and resting `REST_SECS`, selling the
/// full balance, refreshing the sell nonce when durable nonces are used.
pub fn cycle_plan(uses_durable_nonce: bool) -> (p: CyclePlan)
    ensures
        p == (CyclePlan {
            rounds: ROUNDS,
            hold_secs: REST_SECS,
            rest_secs: REST_SECS,
            sizing: SellSizing::FullBalance,
            refresh_sell_nonce: uses_durable_nonce,
        }),
{
    CyclePlan {
        rounds: rounds(),
        hold_secs: rest_secs(),
        rest_secs: rest_secs(),
        sizing: SellSizing::FullBalance,
        refresh_sell_nonce: uses_durable_nonce,
    }
}

/// Why the loop refused to start or to trade a round.
#[derive(Debug, Clone, Copy, PartialEq, Eq, Structural)]
pub enum RunError {
    /// The buy amount is zero lamports.
    ZeroBuyAmount,
    /// A slippage of 10000 basis points or more.
    SlippageTooHigh,
    /// The mint is neither side of the pool.
    MintNotInPool,
}

/// Checks the loop's amounts: a positive buy and slippage below 10000 bps on both sides.
pub fn validate_run_amounts(sol_lamports: u64, buy_slippage_bps: u64, sell_slippage_bps: u64) -> (r: Result<(), RunError>)
    ensures
        r == (if sol_lamports == 0 {
            Err(RunError::ZeroBuyAmount)
        } else if buy_slippage_bps >= 10_000 || sell_slippage_bps >= 10_000 {
            Err(RunError::SlippageTooHigh)
        } else {
            Ok(())
        }),
{
    if sol_lamports == 0 {
        return Err(RunError::ZeroBuyAmount);
    }
    if buy_slippage_bps >= 10_000 || sell_slippage_bps >= 10_000 {
        return Err(RunError::SlippageTooHigh);
    }
    Ok(())
}

/// The mints of a PumpSwap pool and their token programs.
#[derive(Debug, Clone, Copy)]
pub struct PoolMints {
    pub base_mint: Address,
    pub base_token_program: Address,
    pub quote_mint: Address,
    pub quote_token_program: Address,
}

/// The token program of `mint` in the pool: the base side's when it is the base mint, else
/// the quote side's when it is the quote mint; otherwise the mint is not traded there.
pub fn mint_token_program(pool: &PoolMints, mint: &Address) -> (r: Result<Address, RunError>)
    ensures
        pool.base_mint@ == mint@ ==> (r matches Ok(p) && p == pool.base_token_program),
        pool.base_mint@ != mint@ && pool.quote_mint@ == mint@ ==> (r matches Ok(p) && p
            == pool.quote_token_program),
        pool.base_mint@ != mint@ && pool.quote_mint@ != mint@ ==> (r matches Err(e) && e
            == RunError::MintNotInPool),
{
    if pool.base_mint.same(mint) {
        Ok(pool.base_token_program)
    } else if pool.quote_mint.same(mint) {
        Ok(pool.quote_token_program)
    } else {
        Err(RunError::MintNotInPool)
    }
}

} // verus!
