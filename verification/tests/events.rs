use pump_trader::address::Address;
use pump_trader::events::{
    max_sol_cost, plan_buy_params, plan_streamed_buy_params, select_streamed_trade,
    select_trade_event, validate_trade_event, BuyParamsSource, CreateEvent, DexEvent, EventError,
    TradeEvent,
};

fn addr(b: u8) -> Address {
    Address::new([b; 32])
}

fn trade() -> TradeEvent {
    TradeEvent {
        mint: addr(1),
        creator: addr(2),
        bonding_curve: addr(3),
        associated_bonding_curve: addr(4),
        token_program: addr(5),
        sol_amount: 1_000,
        token_amount: 50,
        is_buy: true,
        is_created_buy: true,
        mayhem_mode: false,
        is_cashback_coin: false,
        grpc_recv_us: 900_000,
    }
}

#[test]
fn select_trade_event_filters() {
    let e = trade();
    assert!(select_trade_event(DexEvent::PumpFunBuy(e), None, true, 1000, 1_000_000).is_some());
    assert!(select_trade_event(DexEvent::PumpFunBuyExactSolIn(e), Some(addr(1)), true, 1000, 1_000_000).is_some());
    assert!(select_trade_event(DexEvent::PumpFunTrade(e), Some(addr(9)), true, 1000, 1_000_000).is_none());
    assert!(select_trade_event(DexEvent::Other, None, false, 1000, 1_000_000).is_none());
    let create = CreateEvent {
        mint: addr(1),
        creator: addr(2),
        bonding_curve: addr(3),
        token_program: addr(5),
        is_mayhem_mode: false,
        is_cashback_enabled: false,
    };
    assert!(select_trade_event(DexEvent::PumpFunCreate(create), None, false, 1000, 1_000_000).is_none());
    let sell = TradeEvent { is_buy: false, ..e };
    assert!(select_trade_event(DexEvent::PumpFunTrade(sell), None, false, 1000, 1_000_000).is_none());
    let later_buy = TradeEvent { is_created_buy: false, ..e };
    assert!(select_trade_event(DexEvent::PumpFunTrade(later_buy), None, true, 1000, 1_000_000).is_none());
    let picked = select_trade_event(DexEvent::PumpFunTrade(later_buy), None, false, 1000, 1_000_000).unwrap();
    assert_eq!(picked.sol_amount, 1_000);
}

#[test]
fn grpc_selection_ignores_stale_events() {
    let e = trade();
    // received at 0.9 s, now 1.0 s: 100 ms old
    assert!(select_trade_event(DexEvent::PumpFunBuy(e), None, true, 100, 1_000_000).is_some());
    assert!(select_trade_event(DexEvent::PumpFunBuy(e), None, true, 99, 1_000_000).is_none());
    // 1.1 s old with the default 1000 ms limit
    assert!(select_trade_event(DexEvent::PumpFunBuy(e), None, true, 1000, 2_000_000).is_none());
    // no timestamp, or a timestamp in the future
    let unknown = TradeEvent { grpc_recv_us: 0, ..e };
    assert!(select_trade_event(DexEvent::PumpFunBuy(unknown), None, true, 1000, 1_000_000).is_none());
    assert!(select_trade_event(DexEvent::PumpFunBuy(e), None, true, 1000, 899_999).is_none());
}

#[test]
fn streamed_trade_must_be_fresh() {
    let e = trade();
    assert!(select_streamed_trade(&e, None, true, 100, 1_000_000));
    assert!(!select_streamed_trade(&e, None, true, 99, 1_000_000));
    assert!(!select_streamed_trade(&TradeEvent { grpc_recv_us: 0, ..e }, None, false, 100, 1_000_000));
    assert!(!select_streamed_trade(&e, Some(addr(7)), true, 100, 1_000_000));
}

#[test]
fn validate_trade_event_errors() {
    let e = trade();
    assert_eq!(validate_trade_event(&e), Ok(()));
    let zero = Address::zero();
    assert_eq!(
        validate_trade_event(&TradeEvent { bonding_curve: zero, ..e }),
        Err(EventError::MissingAccounts)
    );
    assert_eq!(
        validate_trade_event(&TradeEvent { associated_bonding_curve: zero, ..e }),
        Err(EventError::MissingAccounts)
    );
    assert_eq!(
        validate_trade_event(&TradeEvent { token_program: zero, ..e }),
        Err(EventError::MissingAccounts)
    );
    assert_eq!(
        validate_trade_event(&TradeEvent { creator: zero, ..e }),
        Err(EventError::MissingCreator)
    );
    assert_eq!(
        validate_trade_event(&TradeEvent { creator: zero, is_created_buy: false, ..e }),
        Ok(())
    );
}

#[test]
fn max_sol_cost_adds_a_tenth() {
    assert_eq!(max_sol_cost(1_000), 1_100);
    assert_eq!(max_sol_cost(9), 9);
    assert_eq!(max_sol_cost(0), 0);
    assert_eq!(max_sol_cost(u64::MAX), u64::MAX);
    assert_eq!(max_sol_cost(u64::MAX - 1), u64::MAX);
}

#[test]
fn buy_params_sources() {
    let e = trade();
    assert_eq!(plan_buy_params(&e), BuyParamsSource::DevTrade { max_sol_cost: 1_100 });
    let later = TradeEvent { is_created_buy: false, ..e };
    assert_eq!(plan_buy_params(&later), BuyParamsSource::TradeReserves);
    assert_eq!(plan_streamed_buy_params(&e), BuyParamsSource::DevTrade { max_sol_cost: 1_100 });
    assert_eq!(plan_streamed_buy_params(&later), BuyParamsSource::Rpc);
    let no_creator = TradeEvent { creator: Address::zero(), ..e };
    assert_eq!(plan_streamed_buy_params(&no_creator), BuyParamsSource::Rpc);
}

#[test]
fn address_helpers() {
    assert!(Address::zero().is_zero());
    assert!(!addr(1).is_zero());
    assert!(addr(3).same(&addr(3)));
    let mut b = [3u8; 32];
    b[31] = 4;
    assert!(!addr(3).same(&Address::new(b)));
}
