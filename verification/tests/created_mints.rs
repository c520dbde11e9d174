use pump_trader::address::Address;
use pump_trader::created_mints::{
    enrich_trade_from_create, finish_streamed_trade, on_stream_event, prune_created_mints,
    remember_create, remember_create_v2, CreatedMints, StreamFilter, StreamStep,
};
use pump_trader::events::{CreateEvent, CreateV2Event, DexEvent, TradeEvent};

fn addr(b: u8) -> Address {
    Address::new([b; 32])
}

fn create(mint: u8) -> CreateEvent {
    CreateEvent {
        mint: addr(mint),
        creator: addr(20),
        bonding_curve: addr(30),
        token_program: addr(50),
        is_mayhem_mode: true,
        is_cashback_enabled: false,
    }
}

fn bare_trade(mint: u8) -> TradeEvent {
    let zero = Address::zero();
    TradeEvent {
        mint: addr(mint),
        creator: zero,
        bonding_curve: zero,
        associated_bonding_curve: zero,
        token_program: zero,
        sol_amount: 10,
        token_amount: 10,
        is_buy: true,
        is_created_buy: true,
        mayhem_mode: false,
        is_cashback_coin: true,
        grpc_recv_us: 1_000,
    }
}

#[test]
fn remembered_mint_is_found_and_replaced() {
    let mut t = CreatedMints::new();
    assert_eq!(t.len(), 0);
    remember_create(&mut t, &create(1), 5);
    remember_create(&mut t, &create(2), 6);
    assert_eq!(t.len(), 2);
    let c = t.get(&addr(1)).unwrap();
    assert!(c.creator.same(&addr(20)));
    assert!(c.associated_bonding_curve.is_none());
    assert_eq!(c.observed_at_ns, 5);
    let v2 = CreateV2Event {
        mint: addr(1),
        creator: addr(21),
        bonding_curve: addr(31),
        associated_bonding_curve: addr(41),
        token_program: addr(51),
        is_mayhem_mode: false,
        is_cashback_enabled: true,
    };
    remember_create_v2(&mut t, &v2, 7);
    assert_eq!(t.len(), 2);
    let c = t.get(&addr(1)).unwrap();
    assert!(c.creator.same(&addr(21)));
    assert!(c.associated_bonding_curve.unwrap().same(&addr(41)));
    assert!(t.get(&addr(9)).is_none());
}

#[test]
fn prune_keeps_only_the_last_minute() {
    let mut t = CreatedMints::new();
    remember_create(&mut t, &create(1), 1_000_000_000);
    remember_create(&mut t, &create(2), 2_000_000_000);
    remember_create(&mut t, &create(3), 70_000_000_000);
    prune_created_mints(&mut t, 61_000_000_000);
    // 60 s is not under the time to live; 59 s is; 70 s lies in the future.
    assert!(t.get(&addr(1)).is_none());
    assert!(t.get(&addr(2)).is_some());
    assert!(t.get(&addr(3)).is_some());
    assert_eq!(t.len(), 2);
    prune_created_mints(&mut t, 200_000_000_000);
    assert_eq!(t.len(), 0);
}

#[test]
fn enrich_fills_only_missing_accounts() {
    let mut t = CreatedMints::new();
    remember_create(&mut t, &create(1), 0);
    let ctx = t.get(&addr(1)).unwrap();
    let mut e = bare_trade(1);
    e.creator = addr(99);
    enrich_trade_from_create(&mut e, &ctx, addr(77));
    assert!(e.creator.same(&addr(99)));
    assert!(e.bonding_curve.same(&addr(30)));
    assert!(e.token_program.same(&addr(50)));
    assert!(e.associated_bonding_curve.same(&addr(77)));
    assert!(e.mayhem_mode);
    assert!(e.is_cashback_coin);
}

#[test]
fn stream_events_flow() {
    let filter = StreamFilter { target_mint: None, require_created_buy: true, max_event_age_ms: 1_000 };
    let mut t = CreatedMints::new();
    assert!(matches!(
        on_stream_event(&mut t, DexEvent::PumpFunCreate(create(1)), &filter, 0, 1_000),
        StreamStep::Remembered
    ));
    assert!(matches!(on_stream_event(&mut t, DexEvent::Other, &filter, 0, 1_000), StreamStep::Skipped));
    // The create event did not name the curve's token account: it has to be derived.
    let step = on_stream_event(&mut t, DexEvent::PumpFunBuy(bare_trade(1)), &filter, 10, 1_500);
    let (event, ctx) = match step {
        StreamStep::NeedsCurveAccount { event, ctx } => (event, ctx),
        other => panic!("unexpected {:?}", other),
    };
    match finish_streamed_trade(event, &ctx, addr(77), &filter, 1_500) {
        StreamStep::Selected(e) => {
            assert!(e.associated_bonding_curve.same(&addr(77)));
            assert!(e.creator.same(&addr(20)));
        }
        other => panic!("unexpected {:?}", other),
    }
    // Stale by the time it is finished.
    assert!(matches!(
        finish_streamed_trade(event, &ctx, addr(77), &filter, 1_000_000_000),
        StreamStep::Skipped
    ));
    // A trade that carries all accounts is completed and selected directly.
    let mut full = bare_trade(1);
    full.associated_bonding_curve = addr(44);
    match on_stream_event(&mut t, DexEvent::PumpFunTrade(full), &filter, 20, 1_500) {
        StreamStep::Selected(e) => {
            assert!(e.associated_bonding_curve.same(&addr(44)));
            assert!(e.bonding_curve.same(&addr(30)));
        }
        other => panic!("unexpected {:?}", other),
    }
    // An unknown mint is decided on as it is.
    let mut unknown = bare_trade(5);
    unknown.is_created_buy = false;
    assert!(matches!(
        on_stream_event(&mut t, DexEvent::PumpFunBuyExactSolIn(unknown), &filter, 20, 1_500),
        StreamStep::Skipped
    ));
    // A minute later the create context is gone.
    let _ = on_stream_event(&mut t, DexEvent::Other, &filter, 60_000_000_000, 1_500);
    assert_eq!(t.len(), 0);
}
