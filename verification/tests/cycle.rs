use pump_trader::cycle::{
    CycleAction, CycleError, CycleEvent, CyclePlan, CycleState, NonceStatus, Phase, SellSizing,
};

fn plan(rounds: u32, sizing: SellSizing, nonce: bool) -> CyclePlan {
    CyclePlan { rounds, hold_secs: 30, rest_secs: 10, sizing, refresh_sell_nonce: nonce }
}

fn feed(s: &mut CycleState, e: CycleEvent) -> CycleAction {
    assert!(s.expects(&e), "unexpected {:?} in {:?}", e, s.phase);
    s.step(e)
}

#[test]
fn full_balance_two_rounds_with_nonce() {
    let mut s = CycleState::new(plan(2, SellSizing::FullBalance, true));
    assert_eq!(feed(&mut s, CycleEvent::Begin), CycleAction::SubmitBuy { round: 1 });
    assert_eq!(feed(&mut s, CycleEvent::BuyDone(true)), CycleAction::Hold { secs: 30 });
    assert_eq!(feed(&mut s, CycleEvent::HoldDone), CycleAction::ReadBalanceAfter { round: 1 });
    assert_eq!(feed(&mut s, CycleEvent::BalanceRead(500)), CycleAction::RefreshSellNonce { round: 1 });
    assert_eq!(
        feed(&mut s, CycleEvent::NonceRefreshed(NonceStatus::Refreshed)),
        CycleAction::SubmitSell { round: 1, amount: 500 }
    );
    assert_eq!(feed(&mut s, CycleEvent::SellDone(true)), CycleAction::Rest { secs: 10 });
    assert_eq!(feed(&mut s, CycleEvent::RestDone), CycleAction::SubmitBuy { round: 2 });
    assert_eq!(feed(&mut s, CycleEvent::BuyDone(true)), CycleAction::Hold { secs: 30 });
    assert_eq!(feed(&mut s, CycleEvent::HoldDone), CycleAction::ReadBalanceAfter { round: 2 });
    assert_eq!(feed(&mut s, CycleEvent::BalanceRead(7)), CycleAction::RefreshSellNonce { round: 2 });
    assert_eq!(
        feed(&mut s, CycleEvent::NonceRefreshed(NonceStatus::Refreshed)),
        CycleAction::SubmitSell { round: 2, amount: 7 }
    );
    assert_eq!(feed(&mut s, CycleEvent::SellDone(true)), CycleAction::Finished);
    assert_eq!(s.buys, 2);
    assert_eq!(s.sells, 2);
    assert_eq!(s.phase, Phase::Finished);
    for e in [CycleEvent::Begin, CycleEvent::RestDone, CycleEvent::BalanceRead(1)] {
        assert!(!s.expects(&e));
    }
}

#[test]
fn new_tokens_only_sells_the_gain() {
    let mut s = CycleState::new(plan(1, SellSizing::NewTokensOnly, false));
    assert_eq!(feed(&mut s, CycleEvent::Begin), CycleAction::ReadBalanceBefore { round: 1 });
    assert_eq!(feed(&mut s, CycleEvent::BalanceRead(1_000)), CycleAction::SubmitBuy { round: 1 });
    feed(&mut s, CycleEvent::BuyDone(true));
    feed(&mut s, CycleEvent::HoldDone);
    assert_eq!(
        feed(&mut s, CycleEvent::BalanceRead(1_250)),
        CycleAction::SubmitSell { round: 1, amount: 250 }
    );
    assert_eq!(feed(&mut s, CycleEvent::SellDone(true)), CycleAction::Finished);
}

fn run_to_balance_after(sizing: SellSizing, before: u64) -> CycleState {
    let mut s = CycleState::new(plan(1, sizing, false));
    feed(&mut s, CycleEvent::Begin);
    if sizing == SellSizing::NewTokensOnly {
        feed(&mut s, CycleEvent::BalanceRead(before));
    }
    feed(&mut s, CycleEvent::BuyDone(true));
    feed(&mut s, CycleEvent::HoldDone);
    s
}

#[test]
fn cycle_errors() {
    let mut s = CycleState::new(plan(1, SellSizing::FullBalance, false));
    feed(&mut s, CycleEvent::Begin);
    assert_eq!(
        feed(&mut s, CycleEvent::BuyDone(false)),
        CycleAction::Failed(CycleError::BuyFailed { round: 1 })
    );
    assert_eq!(s.phase, Phase::Failed);
    assert!(!s.expects(&CycleEvent::BuyDone(true)));

    let mut s = run_to_balance_after(SellSizing::FullBalance, 0);
    assert_eq!(
        feed(&mut s, CycleEvent::BalanceRead(0)),
        CycleAction::Failed(CycleError::EmptyBalance { round: 1 })
    );

    let mut s = run_to_balance_after(SellSizing::NewTokensOnly, 100);
    assert_eq!(
        feed(&mut s, CycleEvent::BalanceRead(40)),
        CycleAction::Failed(CycleError::BalanceDecreased { round: 1, before: 100, after: 40 })
    );

    let mut s = run_to_balance_after(SellSizing::NewTokensOnly, 100);
    assert_eq!(
        feed(&mut s, CycleEvent::BalanceRead(100)),
        CycleAction::Failed(CycleError::NoNewTokens { round: 1 })
    );

    let mut s = run_to_balance_after(SellSizing::FullBalance, 0);
    feed(&mut s, CycleEvent::BalanceRead(9));
    assert_eq!(
        feed(&mut s, CycleEvent::SellDone(false)),
        CycleAction::Failed(CycleError::SellFailed { round: 1 })
    );

    for (status, err) in [
        (NonceStatus::MissingAccount, CycleError::NonceAccountMissing),
        (NonceStatus::Unavailable, CycleError::NonceUnavailable),
    ] {
        let mut s = CycleState::new(plan(1, SellSizing::FullBalance, true));
        feed(&mut s, CycleEvent::Begin);
        feed(&mut s, CycleEvent::BuyDone(true));
        feed(&mut s, CycleEvent::HoldDone);
        feed(&mut s, CycleEvent::BalanceRead(9));
        assert_eq!(feed(&mut s, CycleEvent::NonceRefreshed(status)), CycleAction::Failed(err));
        assert_eq!(s.sells, 0);
    }
}

#[test]
fn zero_rounds_finish_at_once() {
    let mut s = CycleState::new(plan(0, SellSizing::FullBalance, false));
    assert_eq!(feed(&mut s, CycleEvent::Begin), CycleAction::Finished);
    assert_eq!(s.buys, 0);
}

#[test]
fn submissions_never_exceed_rounds() {
    // Drive a three-round run to its end with random-looking balances and count submissions.
    let mut s = CycleState::new(plan(3, SellSizing::NewTokensOnly, false));
    let mut buys = 0;
    let mut sells = 0;
    let mut action = feed(&mut s, CycleEvent::Begin);
    let mut balance = 5u64;
    loop {
        let event = match action {
            CycleAction::ReadBalanceBefore { .. } => CycleEvent::BalanceRead(balance),
            CycleAction::SubmitBuy { .. } => {
                buys += 1;
                balance += 3;
                CycleEvent::BuyDone(true)
            }
            CycleAction::Hold { .. } => CycleEvent::HoldDone,
            CycleAction::ReadBalanceAfter { .. } => CycleEvent::BalanceRead(balance),
            CycleAction::RefreshSellNonce { .. } => CycleEvent::NonceRefreshed(NonceStatus::Refreshed),
            CycleAction::SubmitSell { amount, .. } => {
                assert_eq!(amount, 3);
                sells += 1;
                balance -= amount;
                CycleEvent::SellDone(true)
            }
            CycleAction::Rest { .. } => CycleEvent::RestDone,
            CycleAction::Finished | CycleAction::Failed(_) => break,
        };
        action = feed(&mut s, event);
    }
    assert_eq!(action, CycleAction::Finished);
    assert_eq!((buys, sells), (3, 3));
    assert!(sells <= buys && buys <= 3);
}
