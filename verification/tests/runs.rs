use pump_trader::address::Address;
use pump_trader::cycle::SellSizing;
use pump_trader::{pumpfun_run, pumpswap_run};
use pump_trader::pumpswap_run::{mint_token_program, validate_run_amounts, PoolMints, RunError};

#[test]
fn loop_constants_and_plans() {
    assert_eq!(pumpfun_run::rest_secs(), 30);
    assert_eq!(pumpfun_run::rounds(), 1);
    assert_eq!(pumpswap_run::rest_secs(), 30);
    assert_eq!(pumpswap_run::rounds(), 1);
    let p = pumpfun_run::cycle_plan(true);
    assert_eq!((p.rounds, p.hold_secs, p.rest_secs, p.sizing, p.refresh_sell_nonce), (1, 30, 30, SellSizing::FullBalance, true));
    let p = pumpswap_run::cycle_plan(false);
    assert_eq!((p.sizing, p.refresh_sell_nonce), (SellSizing::FullBalance, false));
    assert!(pumpfun_run::create_mint_ata(false));
    assert!(!pumpfun_run::create_mint_ata(true));
}

#[test]
fn run_amount_checks() {
    assert_eq!(validate_run_amounts(10, 500, 9980), Ok(()));
    assert_eq!(validate_run_amounts(0, 500, 9980), Err(RunError::ZeroBuyAmount));
    assert_eq!(validate_run_amounts(10, 10_000, 0), Err(RunError::SlippageTooHigh));
    assert_eq!(validate_run_amounts(10, 0, 10_001), Err(RunError::SlippageTooHigh));
}

#[test]
fn pool_side_of_mint() {
    let a = |b: u8| Address::new([b; 32]);
    let pool = PoolMints { base_mint: a(1), base_token_program: a(11), quote_mint: a(2), quote_token_program: a(12) };
    assert!(mint_token_program(&pool, &a(1)).unwrap().same(&a(11)));
    assert!(mint_token_program(&pool, &a(2)).unwrap().same(&a(12)));
    assert_eq!(mint_token_program(&pool, &a(3)).unwrap_err(), RunError::MintNotInPool);
}
