//! PumpFun stream events as the sniper logic reads them, and the decisions taken on them:
//! which event to act on, whether it carries the accounts a buy needs, and where the buy
//! parameters come from.
use vstd::prelude::*;
use crate::address::{Address, zero_address};
use crate::freshness::{is_event_fresh, spec_event_fresh};

verus! {

/// The fields of a PumpFun trade event that the logic reads or fills in.
#[derive(Debug, Clone, Copy)]
pub struct TradeEvent {
    /// The token mint.
    pub mint: Address,
    /// The token's creator.
    pub creator: Address,
    /// The bonding curve account.
    pub bonding_curve: Address,
    /// The bonding curve's token account.
    pub associated_bonding_curve: Address,
    /// The token program of the mint.
    pub token_program: Address,
    /// SOL (lamports) paid in the trade.
    pub sol_amount: u64,
    /// Tokens received in the trade.
    pub token_amount: u64,
    /// Whether the trade is a buy.
    pub is_buy: bool,
    /// Whether the trade is the creator's first buy.
    pub is_created_buy: bool,
    /// Whether the token is in mayhem mode.
    pub mayhem_mode: bool,
    /// Whether the token has cashback enabled.
    pub is_cashback_coin: bool,
    /// When the event was received, in microseconds (0 when unknown).
    pub grpc_recv_us: i64,
}

/// The fields of a PumpFun create event that the logic keeps.
#[derive(Debug, Clone, Copy)]
pub struct CreateEvent {
    pub mint: Address,
    pub creator: Address,
    pub bonding_curve: Address,
    pub token_program: Address,
    pub is_mayhem_mode: bool,
    pub is_cashback_enabled: bool,
}

/// The fields of a PumpFun create-v2 event that the logic keeps; unlike the first version it
/// names the bonding curve's token account.
#[derive(Debug, Clone, Copy)]
pub struct CreateV2Event {
    pub mint: Address,
    pub creator: Address,
    pub bonding_curve: Address,
    pub associated_bonding_curve: Address,
    pub token_program: Address,
    pub is_mayhem_mode: bool,
    pub is_cashback_enabled: bool,
}

/// A decoded DEX event, as far as the snipers distinguish them.
#[derive(Debug, Clone, Copy)]
pub enum DexEvent {
    PumpFunBuy(TradeEvent),
    PumpFunBuyExactSolIn(TradeEvent),
    PumpFunTrade(TradeEvent),
    PumpFunCreate(CreateEvent),
    PumpFunCreateV2(CreateV2Event),
    /// Any event of another kind.
    Other,
}

/// The trade carried by an event, if it is a PumpFun trade.
pub open spec fn trade_of(event: DexEvent) -> Option<TradeEvent> {
    match event {
        DexEvent::PumpFunBuy(e) => Some(e),
        DexEvent::PumpFunBuyExactSolIn(e) => Some(e),
        DexEvent::PumpFunTrade(e) => Some(e),
        _ => None,
    }
}

/// Whether a trade matches the sniper's filter: a buy, the creator's first buy when that
/// is required, and on the target mint when one is set.
pub open spec fn matches_filter(
    e: TradeEvent,
    target_mint: Option<Address>,
    require_created_buy: bool,
) -> bool {
    &&& e.is_buy
    &&& (require_created_buy ==> e.is_created_buy)
    &&& match target_mint {
        Some(t) => e.mint@ == t@,
        None => true,
    }
}

/// Whether a trade passes the filter (the common part of both selections).
pub fn passes_filter(e: &TradeEvent, target_mint: &Option<Address>, require_created_buy: bool) -> (r: bool)
    ensures
        r == matches_filter(*e, *target_mint, require_created_buy),
{
    if !e.is_buy {
        return false;
    }
    if require_created_buy && !e.is_created_buy {
        return false;
    }
    match target_mint {
        Some(t) => e.mint.same(t),
        None => true,
    }
}

/// The trade a gRPC event gives to act on: the event's PumpFun trade, when it matches the
/// filter and is no older than `max_event_age_ms` at `now_us`.
pub open spec fn spec_select_trade(
    event: DexEvent,
    target_mint: Option<Address>,
    require_created_buy: bool,
    max_event_age_ms: u64,
    now_us: i64,
) -> Option<TradeEvent> {
    match trade_of(event) {
        Some(e) => if matches_filter(e, target_mint, require_created_buy) && spec_event_fresh(
            e.grpc_recv_us,
            now_us,
            max_event_age_ms,
        ) {
            Some(e)
        } else {
            None
        },
        None => None,
    }
}

/// The trade to act on, if `event` is a PumpFun trade that matches the filter and is no
/// older than `max_event_age_ms` at `now_us` (stale queued events are ignored).
pub fn select_trade_event(
    event: DexEvent,
    target_mint: Option<Address>,
    require_created_buy: bool,
    max_event_age_ms: u64,
    now_us: i64,
) -> (r: Option<TradeEvent>)
    ensures
        r == spec_select_trade(event, target_mint, require_created_buy, max_event_age_ms, now_us),
{
    let e = match event {
        DexEvent::PumpFunBuy(e) => e,
        DexEvent::PumpFunBuyExactSolIn(e) => e,
        DexEvent::PumpFunTrade(e) => e,
        _ => {
            return None;
        },
    };
    if passes_filter(&e, &target_mint, require_created_buy) && is_event_fresh(
        e.grpc_recv_us,
        now_us,
        max_event_age_ms,
    ) {
        Some(e)
    } else {
        None
    }
}

/// Whether a streamed trade should be acted on at `now_us`: it matches the filter and is
/// no older than `max_event_age_ms`.
pub fn select_streamed_trade(
    event: &TradeEvent,
    target_mint: Option<Address>,
    require_created_buy: bool,
    max_event_age_ms: u64,
    now_us: i64,
) -> (r: bool)
    ensures
        r == (matches_filter(*event, target_mint, require_created_buy) && spec_event_fresh(
            event.grpc_recv_us,
            now_us,
            max_event_age_ms,
        )),
{
    passes_filter(event, &target_mint, require_created_buy) && is_event_fresh(
        event.grpc_recv_us,
        now_us,
        max_event_age_ms,
    )
}

/// Why a trade event cannot be bought on.
#[derive(Debug, Clone, Copy, PartialEq, Eq, Structural)]
pub enum EventError {
    /// The bonding curve, its token account or the token program is missing.
    MissingAccounts,
    /// A creator's first buy without the creator.
    MissingCreator,
}

/// A trade carries what a buy needs: its bonding curve, the curve's token account and the
/// token program, and the creator when it is the creator's first buy.
pub open spec fn spec_validate_trade(e: TradeEvent) -> Result<(), EventError> {
    if e.bonding_curve@ == zero_address() || e.associated_bonding_curve@ == zero_address()
        || e.token_program@ == zero_address() {
        Err(EventError::MissingAccounts)
    } else if e.is_created_buy && e.creator@ == zero_address() {
        Err(EventError::MissingCreator)
    } else {
        Ok(())
    }
}

/// Checks that a trade event carries the accounts a buy needs.
pub fn validate_trade_event(e: &TradeEvent) -> (r: Result<(), EventError>)
    ensures
        r == spec_validate_trade(*e),
{
    if e.bonding_curve.is_zero() || e.associated_bonding_curve.is_zero()
        || e.token_program.is_zero() {
        return Err(EventError::MissingAccounts);
    }
    if e.is_created_buy && e.creator.is_zero() {
        return Err(EventError::MissingCreator);
    }
    Ok(())
}

/// The most SOL a copy of the creator's first buy may cost: the observed cost plus a
/// tenth, saturating.
pub open spec fn spec_max_sol_cost(sol_amount: u64) -> u64 {
    if sol_amount + sol_amount / 10 > u64::MAX {
        u64::MAX
    } else {
        (sol_amount + sol_amount / 10) as u64
    }
}

/// The maximum SOL cost for copying the creator's first buy.
pub fn max_sol_cost(sol_amount: u64) -> (r: u64)
    ensures
        r == spec_max_sol_cost(sol_amount),
{
    sol_amount.saturating_add(sol_amount / 10)
}

/// Where the PumpFun parameters of a buy come from.
#[derive(Debug, Clone, Copy, PartialEq, Eq, Structural)]
pub enum BuyParamsSource {
    /// Copy the creator's first buy, paying at most `max_sol_cost`.
    DevTrade { max_sol_cost: u64 },
    /// The reserves carried by the trade event.
    TradeReserves,
    /// The bonding curve as read over RPC.
    Rpc,
}

/// For an event from the full transaction stream: copy the creator's first buy, otherwise
/// use the event's reserves.
pub fn plan_buy_params(e: &TradeEvent) -> (r: BuyParamsSource)
    ensures
        r == (if e.is_created_buy {
            BuyParamsSource::DevTrade { max_sol_cost: spec_max_sol_cost(e.sol_amount) }
        } else {
            BuyParamsSource::TradeReserves
        }),
{
    if e.is_created_buy {
        BuyParamsSource::DevTrade { max_sol_cost: max_sol_cost(e.sol_amount) }
    } else {
        BuyParamsSource::TradeReserves
    }
}

/// For an event from the shred stream (which carries no reserves): copy the creator's first
/// buy when the creator is known, otherwise read the bonding curve over RPC.
pub fn plan_streamed_buy_params(e: &TradeEvent) -> (r: BuyParamsSource)
    ensures
        r == (if e.is_created_buy && e.creator@ != zero_address() {
            BuyParamsSource::DevTrade { max_sol_cost: spec_max_sol_cost(e.sol_amount) }
        } else {
            BuyParamsSource::Rpc
        }),
{
    if e.is_created_buy && !e.creator.is_zero() {
        BuyParamsSource::DevTrade { max_sol_cost: max_sol_cost(e.sol_amount) }
    } else {
        BuyParamsSource::Rpc
    }
}

/// Law: only buys are acted on; with the created-buy requirement on, only the creator's first
/// buy, whatever the target mint; with a target mint, only trades of that mint. A trade that
/// meets all three passes.
pub proof fn law_filter_requirements_are_independent(
    e: TradeEvent,
    target_mint: Option<Address>,
    require_created_buy: bool,
)
    ensures
        !e.is_buy ==> !matches_filter(e, target_mint, require_created_buy),
        require_created_buy && !e.is_created_buy ==> !matches_filter(e, target_mint, require_created_buy),
        target_mint matches Some(t) && e.mint@ != t@ ==> !matches_filter(e, target_mint, require_created_buy),
        e.is_buy && (require_created_buy ==> e.is_created_buy) && (target_mint matches Some(t) ==> e.mint@
            == t@) ==> matches_filter(e, target_mint, require_created_buy),
{
}

/// Law: the trade the gRPC sniper selects is the event's own trade, a buy, the creator's first
/// buy when that is required (whatever the target mint), on the target mint when one is set,
/// and fresh.
pub proof fn law_selected_trade_meets_every_requirement(
    event: DexEvent,
    target_mint: Option<Address>,
    require_created_buy: bool,
    max_event_age_ms: u64,
    now_us: i64,
    chosen: TradeEvent,
)
    requires
        spec_select_trade(event, target_mint, require_created_buy, max_event_age_ms, now_us) == Some(chosen),
    ensures
        trade_of(event) == Some(chosen),
        chosen.is_buy,
        require_created_buy ==> chosen.is_created_buy,
        target_mint matches Some(t) ==> chosen.mint@ == t@,
        chosen.grpc_recv_us > 0 && now_us >= chosen.grpc_recv_us,
        now_us - chosen.grpc_recv_us <= max_event_age_ms * 1000,
{
}

/// Law: a trade passes the check before a buy exactly when it names its bonding curve, the
/// curve's token account and the token program, and, for the creator's first buy, the
/// creator; a missing curve account is reported before a missing creator.
pub proof fn law_validated_trade_names_its_accounts(e: TradeEvent)
    ensures
        spec_validate_trade(e) is Ok <==> (e.bonding_curve@ != zero_address()
            && e.associated_bonding_curve@ != zero_address() && e.token_program@ != zero_address()
            && (e.is_created_buy ==> e.creator@ != zero_address())),
        e.bonding_curve@ == zero_address() || e.associated_bonding_curve@ == zero_address()
            || e.token_program@ == zero_address() ==> spec_validate_trade(e) == Err::<(), EventError>(
            EventError::MissingAccounts,
        ),
        !e.is_created_buy && spec_validate_trade(e) is Err ==> spec_validate_trade(e) == Err::<(), EventError>(
            EventError::MissingAccounts,
        ),
{
}

/// Law: the cost cap for copying the creator's first buy is the observed cost plus a tenth
/// of it (rounded down), never less than the observed cost, and saturates at the largest
/// amount; a larger observed cost never gives a smaller cap.
pub proof fn law_max_sol_cost_adds_a_tenth(sol_amount: u64, larger: u64)
    ensures
        spec_max_sol_cost(sol_amount) >= sol_amount,
        sol_amount as int + sol_amount as int / 10 <= u64::MAX ==> spec_max_sol_cost(sol_amount)
            == sol_amount + sol_amount / 10,
        sol_amount as int + sol_amount as int / 10 > u64::MAX ==> spec_max_sol_cost(sol_amount) == u64::MAX,
        sol_amount <= larger ==> spec_max_sol_cost(sol_amount) <= spec_max_sol_cost(larger),
{
}

} // verus!
