//! Settings of the two snipers, built from raw environment values.
use vstd::prelude::*;
use crate::address::{Address, parse_address, spec_parse_pubkey};
use crate::cycle::{CyclePlan, SellSizing};
use crate::text::{chars_of, lower_eq_lit, lower_seq, trim_seq};
use crate::vars::{env_bool, env_string, env_u64, opt_string, spec_env_bool, spec_env_string, spec_env_u64, ValueError};

verus! {

/// RPC endpoint used when none is configured.
pub const DEFAULT_RPC_URL: &'static str = "https://api.mainnet-beta.solana.com";

/// Yellowstone gRPC endpoint used when none is configured.
pub const DEFAULT_GRPC_ENDPOINT: &'static str = "https://solana-yellowstone-grpc.publicnode.com:443";

/// ShredStream endpoint used when none is configured.
pub const DEFAULT_SHREDSTREAM_ENDPOINT: &'static str = "http://127.0.0.1:10800";

/// The raw environment values a sniper reads (`None` when unset).
#[derive(Debug, Clone)]
pub struct SniperEnv {
    pub rpc_url: Option<String>,
    pub solana_rpc_url: Option<String>,
    pub grpc_endpoint: Option<String>,
    pub grpc_auth_token: Option<String>,
    pub shredstream_endpoint: Option<String>,
    pub target_mint: Option<String>,
    pub require_created_buy: Option<String>,
    pub buy_slippage_bps: Option<String>,
    pub sell_slippage_bps: Option<String>,
    pub hold_seconds: Option<String>,
    pub max_event_age_ms: Option<String>,
    pub wait_tx_confirmed: Option<String>,
    pub wait_for_all_submits: Option<String>,
    pub assume_prepared_atas: Option<String>,
    pub buy_mode: Option<String>,
}

/// How the buy amount is expressed to the trading client.
#[derive(Debug, Clone, Copy, PartialEq, Eq, Structural)]
pub enum BuyMode {
    /// Spend at most the quote amount (protection on the input side).
    WithMaxInput,
    /// Spend exactly the quote amount (protection on the output side).
    ExactInput,
}

/// A buy amount in the trading client's terms.
#[derive(Debug, Clone, Copy, PartialEq, Eq, Structural)]
pub enum BuyAmount {
    WithMaxInput { quote_amount: u64 },
    ExactInput(u64),
}

impl BuyMode {
    /// The buy amount for `quote_amount` lamports in this mode.
    pub fn amount(self, quote_amount: u64) -> (r: BuyAmount)
        ensures
            r == (match self {
                BuyMode::WithMaxInput => BuyAmount::WithMaxInput { quote_amount },
                BuyMode::ExactInput => BuyAmount::ExactInput(quote_amount),
            }),
    {
        match self {
            BuyMode::WithMaxInput => BuyAmount::WithMaxInput { quote_amount },
            BuyMode::ExactInput => BuyAmount::ExactInput(quote_amount),
        }
    }
}

/// A setting that holds a number.
#[derive(Debug, Clone, Copy, PartialEq, Eq, Structural)]
pub enum NumericSetting {
    BuySlippageBps,
    SellSlippageBps,
    HoldSeconds,
    MaxEventAgeMs,
}

/// Why the settings were refused.
#[derive(Debug, Clone, Copy, PartialEq, Eq, Structural)]
pub enum SettingsError {
    /// `TARGET_MINT` is not a valid address.
    InvalidTargetMint,
    /// `BUY_SOL_AMOUNT` is not a number.
    InvalidBuyAmount,
    /// A numeric setting is not a `u64`.
    NotU64(NumericSetting),
    /// `BUY_MODE` is neither `with_max_input` nor `exact_input`.
    InvalidBuyMode,
    /// The buy amount is zero lamports.
    ZeroBuyAmount,
    /// A slippage of 10000 basis points or more.
    SlippageTooHigh,
    /// `MAX_EVENT_AGE_MS` is zero or too large to count in microseconds.
    MaxEventAgeOutOfRange,
    /// Automatic selling needs confirmed transactions.
    WaitTxConfirmedRequired,
}

/// Settings of the Yellowstone gRPC sniper.
#[derive(Debug, Clone)]
pub struct GrpcSettings {
    pub rpc_url: String,
    pub grpc_endpoint: String,
    pub grpc_auth_token: Option<String>,
    pub target_mint: Option<Address>,
    pub require_created_buy: bool,
    pub buy_lamports: u64,
    pub buy_slippage_bps: u64,
    pub sell_slippage_bps: u64,
    pub hold_seconds: u64,
    /// Events older than this, in milliseconds, are ignored.
    pub max_event_age_ms: u64,
    pub wait_tx_confirmed: bool,
    pub wait_for_all_submits: bool,
    pub assume_prepared_atas: bool,
    pub buy_mode: BuyMode,
}

/// Settings of the ShredStream sniper.
#[derive(Debug, Clone)]
pub struct ShredSettings {
    pub rpc_url: String,
    pub shredstream_endpoint: String,
    pub target_mint: Option<Address>,
    pub require_created_buy: bool,
    pub buy_lamports: u64,
    pub buy_slippage_bps: u64,
    pub sell_slippage_bps: u64,
    pub hold_seconds: u64,
    pub max_event_age_ms: u64,
    pub wait_tx_confirmed: bool,
    pub wait_for_all_submits: bool,
    pub assume_prepared_atas: bool,
    pub buy_mode: BuyMode,
}

/// The first set value among `a` and `b`, else `default`.
pub open spec fn first_set(a: Option<String>, b: Option<String>, default: Seq<char>) -> Seq<char> {
    match spec_env_string(opt_string(a)) {
        Some(v) => v,
        None => match spec_env_string(opt_string(b)) {
            Some(v) => v,
            None => default,
        },
    }
}

fn first_set_exec(a: &Option<String>, b: &Option<String>, default: &str) -> (r: String)
    ensures
        r@ == first_set(*a, *b, default@),
{
    let av = match a {
        Some(s) => Some(s.as_str()),
        None => None,
    };
    match env_string(av) {
        Some(v) => v,
        None => {
            let bv = match b {
                Some(s) => Some(s.as_str()),
                None => None,
            };
            match env_string(bv) {
                Some(v) => v,
                None => String::from_str(default),
            }
        },
    }
}

fn as_str_opt(o: &Option<String>) -> (r: Option<&str>)
    ensures
        crate::vars::opt_str(r) == opt_string(*o),
{
    match o {
        Some(s) => Some(s.as_str()),
        None => None,
    }
}

/// The target mint setting: unset means any mint; a set value must be an address.
pub open spec fn spec_target_mint(raw: Option<String>) -> Result<Option<Seq<u8>>, SettingsError> {
    match spec_env_string(opt_string(raw)) {
        Some(t) => match spec_parse_pubkey(t) {
            Some(b) => Ok(Some(b)),
            None => Err(SettingsError::InvalidTargetMint),
        },
        None => Ok(None),
    }
}

fn target_mint_of(raw: &Option<String>) -> (r: Result<Option<Address>, SettingsError>)
    ensures
        match r {
            Ok(Some(a)) => spec_target_mint(*raw) == Ok::<Option<Seq<u8>>, SettingsError>(Some(a@)),
            Ok(None) => spec_target_mint(*raw) == Ok::<Option<Seq<u8>>, SettingsError>(None),
            Err(e) => spec_target_mint(*raw) == Err::<Option<Seq<u8>>, SettingsError>(e),
        },
{
    match env_string(as_str_opt(raw)) {
        Some(t) => match parse_address(t.as_str()) {
            Some(a) => Ok(Some(a)),
            None => Err(SettingsError::InvalidTargetMint),
        },
        None => Ok(None),
    }
}

/// A numeric setting with its default, errors named after the setting.
pub open spec fn spec_number(raw: Option<String>, default: u64, which: NumericSetting) -> Result<u64, SettingsError> {
    match spec_env_u64(opt_string(raw), default) {
        Ok(n) => Ok(n),
        Err(_) => Err(SettingsError::NotU64(which)),
    }
}

fn number_of(raw: &Option<String>, default: u64, which: NumericSetting) -> (r: Result<u64, SettingsError>)
    ensures
        r == spec_number(*raw, default, which),
{
    match env_u64(as_str_opt(raw), default) {
        Ok(n) => Ok(n),
        Err(ValueError::NotU64) => Err(SettingsError::NotU64(which)),
    }
}

/// The buy mode setting (ASCII case ignored), `with_max_input` when unset.
pub open spec fn spec_buy_mode(raw: Option<String>) -> Result<BuyMode, SettingsError> {
    let v = match spec_env_string(opt_string(raw)) {
        Some(v) => v,
        None => "with_max_input"@,
    };
    if lower_seq(v) == "with_max_input"@ {
        Ok(BuyMode::WithMaxInput)
    } else if lower_seq(v) == "exact_input"@ {
        Ok(BuyMode::ExactInput)
    } else {
        Err(SettingsError::InvalidBuyMode)
    }
}

fn buy_mode_of(raw: &Option<String>) -> (r: Result<BuyMode, SettingsError>)
    ensures
        r == spec_buy_mode(*raw),
{
    let v = match env_string(as_str_opt(raw)) {
        Some(v) => v,
        None => String::from_str("with_max_input"),
    };
    let cs = chars_of(v.as_str());
    if lower_eq_lit(&cs, "with_max_input") {
        Ok(BuyMode::WithMaxInput)
    } else if lower_eq_lit(&cs, "exact_input") {
        Ok(BuyMode::ExactInput)
    } else {
        Err(SettingsError::InvalidBuyMode)
    }
}

/// The first error in reading the gRPC sniper's settings, in the order they are read;
/// `buy_lamports` is `None` when `BUY_SOL_AMOUNT` is not a number.
pub open spec fn grpc_settings_error(env: SniperEnv, buy_lamports: Option<u64>) -> Option<SettingsError> {
    if spec_target_mint(env.target_mint) is Err {
        Some(SettingsError::InvalidTargetMint)
    } else if buy_lamports is None {
        Some(SettingsError::InvalidBuyAmount)
    } else if spec_number(env.buy_slippage_bps, 300, NumericSetting::BuySlippageBps) is Err {
        Some(SettingsError::NotU64(NumericSetting::BuySlippageBps))
    } else if spec_number(env.sell_slippage_bps, 500, NumericSetting::SellSlippageBps) is Err {
        Some(SettingsError::NotU64(NumericSetting::SellSlippageBps))
    } else if spec_number(env.hold_seconds, 3, NumericSetting::HoldSeconds) is Err {
        Some(SettingsError::NotU64(NumericSetting::HoldSeconds))
    } else if spec_number(env.max_event_age_ms, 1000, NumericSetting::MaxEventAgeMs) is Err {
        Some(SettingsError::NotU64(NumericSetting::MaxEventAgeMs))
    } else if spec_buy_mode(env.buy_mode) is Err {
        Some(SettingsError::InvalidBuyMode)
    } else if spec_number(env.max_event_age_ms, 1000, NumericSetting::MaxEventAgeMs)->Ok_0 == 0
        || spec_number(env.max_event_age_ms, 1000, NumericSetting::MaxEventAgeMs)->Ok_0
        > MAX_EVENT_AGE_LIMIT_MS {
        Some(SettingsError::MaxEventAgeOutOfRange)
    } else if !spec_env_bool(opt_string(env.wait_tx_confirmed), true) {
        Some(SettingsError::WaitTxConfirmedRequired)
    } else {
        None
    }
}

/// The gRPC sniper's settings: RPC from `RPC_URL` or `SOLANA_RPC_URL` (else the public
/// endpoint), slippage 300 / 500 bps, a 3 s hold, a 1000 ms event age limit (from 1 ms up to
/// what fits in microseconds), created buys required and `with_max_input` buys unless set
/// otherwise; confirmation must be awaited, since the sell is sized from the balance after
/// the buy.
pub fn grpc_settings_from_env(env: &SniperEnv, buy_lamports: Option<u64>) -> (r: Result<GrpcSettings, SettingsError>)
    ensures
        match grpc_settings_error(*env, buy_lamports) {
            Some(e) => r matches Err(x) && x == e,
            None => r matches Ok(s) && {
                &&& s.rpc_url@ == first_set(env.rpc_url, env.solana_rpc_url, DEFAULT_RPC_URL@)
                &&& s.grpc_endpoint@ == first_set(env.grpc_endpoint, None, DEFAULT_GRPC_ENDPOINT@)
                &&& opt_string(s.grpc_auth_token) == spec_env_string(opt_string(env.grpc_auth_token))
                &&& spec_target_mint(env.target_mint) == Ok::<Option<Seq<u8>>, SettingsError>(
                    match s.target_mint {
                        Some(a) => Some(a@),
                        None => None,
                    },
                )
                &&& s.require_created_buy == spec_env_bool(opt_string(env.require_created_buy), true)
                &&& Some(s.buy_lamports) == buy_lamports
                &&& Ok::<u64, SettingsError>(s.buy_slippage_bps) == spec_number(env.buy_slippage_bps, 300, NumericSetting::BuySlippageBps)
                &&& Ok::<u64, SettingsError>(s.sell_slippage_bps) == spec_number(env.sell_slippage_bps, 500, NumericSetting::SellSlippageBps)
                &&& Ok::<u64, SettingsError>(s.hold_seconds) == spec_number(env.hold_seconds, 3, NumericSetting::HoldSeconds)
                &&& Ok::<u64, SettingsError>(s.max_event_age_ms) == spec_number(env.max_event_age_ms, 1000, NumericSetting::MaxEventAgeMs)
                &&& 1 <= s.max_event_age_ms <= MAX_EVENT_AGE_LIMIT_MS
                &&& s.wait_tx_confirmed
                &&& s.wait_for_all_submits == spec_env_bool(opt_string(env.wait_for_all_submits), false)
                &&& s.assume_prepared_atas == spec_env_bool(opt_string(env.assume_prepared_atas), false)
                &&& Ok::<BuyMode, SettingsError>(s.buy_mode) == spec_buy_mode(env.buy_mode)
            },
        },
{
    let rpc_url = first_set_exec(&env.rpc_url, &env.solana_rpc_url, DEFAULT_RPC_URL);
    let grpc_endpoint = first_set_exec(&env.grpc_endpoint, &None, DEFAULT_GRPC_ENDPOINT);
    let grpc_auth_token = env_string(as_str_opt(&env.grpc_auth_token));
    let target_mint = match target_mint_of(&env.target_mint) {
        Ok(t) => t,
        Err(e) => {
            return Err(e);
        },
    };
    let buy_lamports = match buy_lamports {
        Some(b) => b,
        None => {
            return Err(SettingsError::InvalidBuyAmount);
        },
    };
    let require_created_buy = env_bool(as_str_opt(&env.require_created_buy), true);
    let buy_slippage_bps = match number_of(&env.buy_slippage_bps, 300, NumericSetting::BuySlippageBps) {
        Ok(n) => n,
        Err(e) => {
            return Err(e);
        },
    };
    let sell_slippage_bps = match number_of(&env.sell_slippage_bps, 500, NumericSetting::SellSlippageBps) {
        Ok(n) => n,
        Err(e) => {
            return Err(e);
        },
    };
    let hold_seconds = match number_of(&env.hold_seconds, 3, NumericSetting::HoldSeconds) {
        Ok(n) => n,
        Err(e) => {
            return Err(e);
        },
    };
    let max_event_age_ms = match number_of(&env.max_event_age_ms, 1000, NumericSetting::MaxEventAgeMs) {
        Ok(n) => n,
        Err(e) => {
            return Err(e);
        },
    };
    let buy_mode = match buy_mode_of(&env.buy_mode) {
        Ok(m) => m,
        Err(e) => {
            return Err(e);
        },
    };
    if max_event_age_ms == 0 || max_event_age_ms > MAX_EVENT_AGE_LIMIT_MS {
        return Err(SettingsError::MaxEventAgeOutOfRange);
    }
    let wait_tx_confirmed = env_bool(as_str_opt(&env.wait_tx_confirmed), true);
    if !wait_tx_confirmed {
        return Err(SettingsError::WaitTxConfirmedRequired);
    }
    let wait_for_all_submits = env_bool(as_str_opt(&env.wait_for_all_submits), false);
    let assume_prepared_atas = env_bool(as_str_opt(&env.assume_prepared_atas), false);
    Ok(GrpcSettings {
        rpc_url,
        grpc_endpoint,
        grpc_auth_token,
        target_mint,
        require_created_buy,
        buy_lamports,
        buy_slippage_bps,
        sell_slippage_bps,
        hold_seconds,
        max_event_age_ms,
        wait_tx_confirmed,
        wait_for_all_submits,
        assume_prepared_atas,
        buy_mode,
    })
}

/// Largest event age, in milliseconds, that still counts in microseconds within `i64`.
pub const MAX_EVENT_AGE_LIMIT_MS: u64 = 9_223_372_036_854_775;

/// The checks on the ShredStream sniper's settings, in order.
pub open spec fn spec_settings_check(
    buy_lamports: u64,
    buy_slippage_bps: u64,
    sell_slippage_bps: u64,
    max_event_age_ms: u64,
    wait_tx_confirmed: bool,
) -> Result<(), SettingsError> {
    if buy_lamports == 0 {
        Err(SettingsError::ZeroBuyAmount)
    } else if buy_slippage_bps >= 10_000 || sell_slippage_bps >= 10_000 {
        Err(SettingsError::SlippageTooHigh)
    } else if max_event_age_ms == 0 || max_event_age_ms > MAX_EVENT_AGE_LIMIT_MS {
        Err(SettingsError::MaxEventAgeOutOfRange)
    } else if !wait_tx_confirmed {
        Err(SettingsError::WaitTxConfirmedRequired)
    } else {
        Ok(())
    }
}

/// The checks applied to a settings value.
pub open spec fn spec_validate_settings(s: ShredSettings) -> Result<(), SettingsError> {
    spec_settings_check(
        s.buy_lamports,
        s.buy_slippage_bps,
        s.sell_slippage_bps,
        s.max_event_age_ms,
        s.wait_tx_confirmed,
    )
}

/// Checks the ShredStream sniper's settings: a positive buy, slippage below 10000 bps, an
/// event age from 1 ms up to what fits in microseconds, and confirmed transactions.
pub fn validate_settings(s: &ShredSettings) -> (r: Result<(), SettingsError>)
    ensures
        r == spec_validate_settings(*s),
{
    if s.buy_lamports == 0 {
        return Err(SettingsError::ZeroBuyAmount);
    }
    if s.buy_slippage_bps >= 10_000 || s.sell_slippage_bps >= 10_000 {
        return Err(SettingsError::SlippageTooHigh);
    }
    if s.max_event_age_ms == 0 || s.max_event_age_ms > MAX_EVENT_AGE_LIMIT_MS {
        return Err(SettingsError::MaxEventAgeOutOfRange);
    }
    if !s.wait_tx_confirmed {
        return Err(SettingsError::WaitTxConfirmedRequired);
    }
    Ok(())
}

/// The first error in reading the ShredStream sniper's settings, in the order they are read
/// (validation comes last).
pub open spec fn shred_read_error(env: SniperEnv, buy_lamports: Option<u64>) -> Option<SettingsError> {
    if spec_target_mint(env.target_mint) is Err {
        Some(SettingsError::InvalidTargetMint)
    } else if buy_lamports is None {
        Some(SettingsError::InvalidBuyAmount)
    } else if spec_number(env.buy_slippage_bps, 300, NumericSetting::BuySlippageBps) is Err {
        Some(SettingsError::NotU64(NumericSetting::BuySlippageBps))
    } else if spec_number(env.sell_slippage_bps, 500, NumericSetting::SellSlippageBps) is Err {
        Some(SettingsError::NotU64(NumericSetting::SellSlippageBps))
    } else if spec_number(env.hold_seconds, 3, NumericSetting::HoldSeconds) is Err {
        Some(SettingsError::NotU64(NumericSetting::HoldSeconds))
    } else if spec_number(env.max_event_age_ms, 1000, NumericSetting::MaxEventAgeMs) is Err {
        Some(SettingsError::NotU64(NumericSetting::MaxEventAgeMs))
    } else if spec_buy_mode(env.buy_mode) is Err {
        Some(SettingsError::InvalidBuyMode)
    } else {
        None
    }
}

/// The ShredStream sniper's settings, read and validated: RPC from `RPC_URL` or
/// `SOLANA_RPC_URL`, slippage 300 / 500 bps, a 3 s hold, a 1000 ms event age limit, created
/// buys required, confirmation awaited, and `with_max_input` buys unless set otherwise.
pub fn shred_settings_from_env(env: &SniperEnv, buy_lamports: Option<u64>) -> (r: Result<ShredSettings, SettingsError>)
    ensures
        match shred_read_error(*env, buy_lamports) {
            Some(e) => r matches Err(x) && x == e,
            None => match r {
                Ok(s) => {
                    &&& spec_validate_settings(s) is Ok
                    &&& s.rpc_url@ == first_set(env.rpc_url, env.solana_rpc_url, DEFAULT_RPC_URL@)
                    &&& s.shredstream_endpoint@ == first_set(env.shredstream_endpoint, None, DEFAULT_SHREDSTREAM_ENDPOINT@)
                    &&& spec_target_mint(env.target_mint) == Ok::<Option<Seq<u8>>, SettingsError>(
                        match s.target_mint {
                            Some(a) => Some(a@),
                            None => None,
                        },
                    )
                    &&& s.require_created_buy == spec_env_bool(opt_string(env.require_created_buy), true)
                    &&& Some(s.buy_lamports) == buy_lamports
                    &&& Ok::<u64, SettingsError>(s.buy_slippage_bps) == spec_number(env.buy_slippage_bps, 300, NumericSetting::BuySlippageBps)
                    &&& Ok::<u64, SettingsError>(s.sell_slippage_bps) == spec_number(env.sell_slippage_bps, 500, NumericSetting::SellSlippageBps)
                    &&& Ok::<u64, SettingsError>(s.hold_seconds) == spec_number(env.hold_seconds, 3, NumericSetting::HoldSeconds)
                    &&& Ok::<u64, SettingsError>(s.max_event_age_ms) == spec_number(env.max_event_age_ms, 1000, NumericSetting::MaxEventAgeMs)
                    &&& s.wait_tx_confirmed == spec_env_bool(opt_string(env.wait_tx_confirmed), true)
                    &&& s.wait_for_all_submits == spec_env_bool(opt_string(env.wait_for_all_submits), false)
                    &&& s.assume_prepared_atas == spec_env_bool(opt_string(env.assume_prepared_atas), false)
                    &&& Ok::<BuyMode, SettingsError>(s.buy_mode) == spec_buy_mode(env.buy_mode)
                },
                Err(e) => spec_settings_check(
                    buy_lamports->0,
                    spec_number(env.buy_slippage_bps, 300, NumericSetting::BuySlippageBps)->Ok_0,
                    spec_number(env.sell_slippage_bps, 500, NumericSetting::SellSlippageBps)->Ok_0,
                    spec_number(env.max_event_age_ms, 1000, NumericSetting::MaxEventAgeMs)->Ok_0,
                    spec_env_bool(opt_string(env.wait_tx_confirmed), true),
                ) == Err::<(), SettingsError>(e),
            },
        },
{
    let rpc_url = first_set_exec(&env.rpc_url, &env.solana_rpc_url, DEFAULT_RPC_URL);
    let shredstream_endpoint = first_set_exec(&env.shredstream_endpoint, &None, DEFAULT_SHREDSTREAM_ENDPOINT);
    let target_mint = match target_mint_of(&env.target_mint) {
        Ok(t) => t,
        Err(e) => {
            return Err(e);
        },
    };
    let buy_lamports = match buy_lamports {
        Some(b) => b,
        None => {
            return Err(SettingsError::InvalidBuyAmount);
        },
    };
    let require_created_buy = env_bool(as_str_opt(&env.require_created_buy), true);
    let buy_slippage_bps = match number_of(&env.buy_slippage_bps, 300, NumericSetting::BuySlippageBps) {
        Ok(n) => n,
        Err(e) => {
            return Err(e);
        },
    };
    let sell_slippage_bps = match number_of(&env.sell_slippage_bps, 500, NumericSetting::SellSlippageBps) {
        Ok(n) => n,
        Err(e) => {
            return Err(e);
        },
    };
    let hold_seconds = match number_of(&env.hold_seconds, 3, NumericSetting::HoldSeconds) {
        Ok(n) => n,
        Err(e) => {
            return Err(e);
        },
    };
    let max_event_age_ms = match number_of(&env.max_event_age_ms, 1000, NumericSetting::MaxEventAgeMs) {
        Ok(n) => n,
        Err(e) => {
            return Err(e);
        },
    };
    let wait_tx_confirmed = env_bool(as_str_opt(&env.wait_tx_confirmed), true);
    let wait_for_all_submits = env_bool(as_str_opt(&env.wait_for_all_submits), false);
    let assume_prepared_atas = env_bool(as_str_opt(&env.assume_prepared_atas), false);
    let buy_mode = match buy_mode_of(&env.buy_mode) {
        Ok(m) => m,
        Err(e) => {
            return Err(e);
        },
    };
    let settings = ShredSettings {
        rpc_url,
        shredstream_endpoint,
        target_mint,
        require_created_buy,
        buy_lamports,
        buy_slippage_bps,
        sell_slippage_bps,
        hold_seconds,
        max_event_age_ms,
        wait_tx_confirmed,
        wait_for_all_submits,
        assume_prepared_atas,
        buy_mode,
    };
    match validate_settings(&settings) {
        Ok(()) => Ok(settings),
        Err(e) => Err(e),
    }
}

/// How the trading client treats token accounts of a buy.
#[derive(Debug, Clone, Copy, PartialEq, Eq, Structural)]
pub enum AccountPolicy {
    /// Create what is missing.
    Auto,
    /// Assume every account was prepared before the stream started.
    HotPathMinimal,
}

impl GrpcSettings {
    /// The account policy of the buy: minimal on the hot path when accounts are prepared.
    pub fn account_policy(&self) -> (r: AccountPolicy)
        ensures
            r == (if self.assume_prepared_atas {
                AccountPolicy::HotPathMinimal
            } else {
                AccountPolicy::Auto
            }),
    {
        if self.assume_prepared_atas {
            AccountPolicy::HotPathMinimal
        } else {
            AccountPolicy::Auto
        }
    }

    /// One buy, a hold of `hold_seconds`, then a sell of only the tokens the buy added.
    pub fn cycle_plan(&self) -> (p: CyclePlan)
        ensures
            p == (CyclePlan {
                rounds: 1,
                hold_secs: self.hold_seconds,
                rest_secs: 0,
                sizing: SellSizing::NewTokensOnly,
                refresh_sell_nonce: false,
            }),
    {
        CyclePlan {
            rounds: 1,
            hold_secs: self.hold_seconds,
            rest_secs: 0,
            sizing: SellSizing::NewTokensOnly,
            refresh_sell_nonce: false,
        }
    }
}

impl ShredSettings {
    /// One buy, a hold of `hold_seconds`, then a sell of only the tokens the buy added.
    pub fn cycle_plan(&self) -> (p: CyclePlan)
        ensures
            p == (CyclePlan {
                rounds: 1,
                hold_secs: self.hold_seconds,
                rest_secs: 0,
                sizing: SellSizing::NewTokensOnly,
                refresh_sell_nonce: false,
            }),
    {
        CyclePlan {
            rounds: 1,
            hold_secs: self.hold_seconds,
            rest_secs: 0,
            sizing: SellSizing::NewTokensOnly,
            refresh_sell_nonce: false,
        }
    }

    /// The account policy of the buy: minimal on the hot path when accounts are prepared.
    pub fn account_policy(&self) -> (r: AccountPolicy)
        ensures
            r == (if self.assume_prepared_atas {
                AccountPolicy::HotPathMinimal
            } else {
                AccountPolicy::Auto
            }),
    {
        if self.assume_prepared_atas {
            AccountPolicy::HotPathMinimal
        } else {
            AccountPolicy::Auto
        }
    }
}

/// Law: of two settings read in order (such as `RPC_URL`, then `SOLANA_RPC_URL`), the first
/// wins, trimmed, whenever it is set and not blank, whatever the second holds; the second is
/// used (trimmed) only when the first is unset or blank, and the default only when both are.
pub proof fn law_first_setting_takes_precedence(a: Option<String>, b: Option<String>, default: Seq<char>)
    ensures
        a matches Some(x) && trim_seq(x@).len() > 0 ==> first_set(a, b, default) == trim_seq(a->0@),
        (a is None || trim_seq(a->0@).len() == 0) && b is Some && trim_seq(b->0@).len() > 0
            ==> first_set(a, b, default) == trim_seq(b->0@),
        (a is None || trim_seq(a->0@).len() == 0) && (b is None || trim_seq(b->0@).len() == 0)
            ==> first_set(a, b, default) == default,
{
}

/// Law: both snipers take their RPC endpoint from `RPC_URL` (trimmed) whenever it is set and
/// not blank, whatever `SOLANA_RPC_URL` holds.
pub proof fn law_rpc_url_comes_first_from_rpc_url(env: SniperEnv)
    requires
        env.rpc_url matches Some(x) && trim_seq(x@).len() > 0,
    ensures
        first_set(env.rpc_url, env.solana_rpc_url, DEFAULT_RPC_URL@) == trim_seq(env.rpc_url->0@),
{
    law_first_setting_takes_precedence(env.rpc_url, env.solana_rpc_url, DEFAULT_RPC_URL@);
}

/// Law: settings pass the ShredStream sniper's check exactly when the buy is positive, both
/// slippages are below 10000 bps, the event age limit lies from 1 ms to what fits in
/// microseconds, and confirmation is awaited.
pub proof fn law_checked_settings_are_usable(
    buy_lamports: u64,
    buy_slippage_bps: u64,
    sell_slippage_bps: u64,
    max_event_age_ms: u64,
    wait_tx_confirmed: bool,
)
    ensures
        spec_settings_check(buy_lamports, buy_slippage_bps, sell_slippage_bps, max_event_age_ms, wait_tx_confirmed)
            is Ok <==> (buy_lamports > 0 && buy_slippage_bps < 10_000 && sell_slippage_bps < 10_000
            && 1 <= max_event_age_ms <= MAX_EVENT_AGE_LIMIT_MS && wait_tx_confirmed),
        MAX_EVENT_AGE_LIMIT_MS * 1000 <= i64::MAX,
        (MAX_EVENT_AGE_LIMIT_MS + 1) * 1000 > i64::MAX,
{
}

/// Law: the buy mode is read without regard to ASCII case or surrounding whitespace:
/// `with_max_input` when unset or blank, and exactly the two mode names are accepted.
pub proof fn law_buy_mode_names(raw: Option<String>)
    ensures
        spec_env_string(opt_string(raw)) is None ==> spec_buy_mode(raw) == Ok::<BuyMode, SettingsError>(
            BuyMode::WithMaxInput,
        ),
        spec_env_string(opt_string(raw)) matches Some(v) ==> (spec_buy_mode(raw) == Ok::<
            BuyMode,
            SettingsError,
        >(BuyMode::ExactInput) <==> lower_seq(v) == "exact_input"@),
        spec_env_string(opt_string(raw)) matches Some(v) ==> (spec_buy_mode(raw) is Err <==> (lower_seq(v)
            != "with_max_input"@ && lower_seq(v) != "exact_input"@)),
{
    reveal_strlit("with_max_input");
    reveal_strlit("exact_input");
    assert("with_max_input"@.len() == 14 && "exact_input"@.len() == 11);
    assert(lower_seq("with_max_input"@) =~= "with_max_input"@);
}

/// Law: the gRPC sniper never starts without awaiting confirmation, with an unreadable buy
/// amount, or with an event age limit of zero or beyond what fits in microseconds; and when
/// it starts, every numeric setting was read as a number.
pub proof fn law_grpc_settings_refusals(env: SniperEnv, buy_lamports: Option<u64>)
    ensures
        !spec_env_bool(opt_string(env.wait_tx_confirmed), true) ==> grpc_settings_error(env, buy_lamports) is Some,
        buy_lamports is None ==> grpc_settings_error(env, buy_lamports) is Some,
        spec_number(env.max_event_age_ms, 1000, NumericSetting::MaxEventAgeMs) == Ok::<u64, SettingsError>(0u64)
            ==> grpc_settings_error(env, buy_lamports) is Some,
        grpc_settings_error(env, buy_lamports) is None ==> {
            &&& spec_target_mint(env.target_mint) is Ok
            &&& spec_number(env.buy_slippage_bps, 300, NumericSetting::BuySlippageBps) is Ok
            &&& spec_number(env.sell_slippage_bps, 500, NumericSetting::SellSlippageBps) is Ok
            &&& spec_number(env.hold_seconds, 3, NumericSetting::HoldSeconds) is Ok
            &&& spec_number(env.max_event_age_ms, 1000, NumericSetting::MaxEventAgeMs) is Ok
            &&& spec_buy_mode(env.buy_mode) is Ok
        },
{
}

} // verus!
