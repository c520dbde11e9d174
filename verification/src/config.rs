//! The configuration the trading loops read from `solana.yaml` and `trading.yaml`, with the
//! defaults that apply to omitted fields.
use vstd::prelude::*;

verus! {

/// Durable nonce accounts used when several SWQoS providers submit the same transaction.
#[derive(Debug, Clone)]
pub struct NonceConfig {
    /// Nonce accounts for buys; blank entries are placeholders.
    pub buy_nonce_accounts: Vec<String>,
    /// Nonce accounts for sells; blank entries are placeholders.
    pub sell_nonce_accounts: Vec<String>,
}

/// One SWQoS provider entry.
#[derive(Debug, Clone)]
pub struct SwqosProviderConfig {
    /// Provider name, such as `Jito` or `Default`.
    pub provider: String,
    /// API token from the file; a token in the environment takes precedence.
    pub api_token: Option<String>,
    /// Whether the provider is used.
    pub enabled: bool,
    /// Preferred transport, if any.
    pub transport: Option<String>,
}

/// The SWQoS section of `solana.yaml`.
#[derive(Debug, Clone)]
pub struct SwqosConfigSettings {
    /// Region name, such as `Frankfurt`.
    pub region: String,
    /// The providers, enabled or not.
    pub enabled_providers: Vec<SwqosProviderConfig>,
}

/// `solana.yaml`.
#[derive(Debug, Clone)]
pub struct SolanaConfig {
    /// RPC endpoint.
    pub rpc_url: String,
    /// Path of the keystore file; blank when the key comes from the environment.
    pub keystore_path: String,
    /// Durable nonce accounts.
    pub nonce_config: Option<NonceConfig>,
    /// SWQoS providers.
    pub swqos: SwqosConfigSettings,
}

/// The integer part of the gas-fee settings of `trading.yaml` (tips are SOL amounts and
/// stay with the caller).
#[derive(Debug, Clone, Copy, PartialEq, Eq, Structural)]
pub struct GasFeeParams {
    pub cu_limit: u32,
    pub global_buy_cu_limit: u32,
    pub global_sell_cu_limit: u32,
    pub global_buy_cu_price: u64,
    pub global_sell_cu_price: u64,
    pub low_tip_high_cu_price: u64,
    pub high_tip_low_cu_price: u64,
}

/// The integer part of `trading.yaml` (the buy amount is a SOL amount and stays with the
/// caller).
#[derive(Debug, Clone, Copy, PartialEq, Eq, Structural)]
pub struct TradingParams {
    pub buy_slippage_bps: u64,
    pub sell_slippage_bps: u64,
    pub enable_high_low_fee: bool,
    pub gas_fee: GasFeeParams,
}

/// Default buy slippage, in basis points.
pub fn default_buy_slippage_bps() -> (r: u64)
    ensures
        r == 500,
{
    500
}

/// Default sell slippage, in basis points.
pub fn default_sell_slippage_bps() -> (r: u64)
    ensures
        r == 9980,
{
    9980
}

/// Default compute-unit limit for the high/low fee strategy.
pub fn default_cu_limit() -> (r: u32)
    ensures
        r == 200000,
{
    200000
}

/// Default compute-unit limit of a buy.
pub fn default_buy_cu_limit() -> (r: u32)
    ensures
        r == 98467,
{
    98467
}

/// Default compute-unit limit of a sell.
pub fn default_sell_cu_limit() -> (r: u32)
    ensures
        r == 93334,
{
    93334
}

/// Default compute-unit price of a buy.
pub fn default_buy_cu_price() -> (r: u64)
    ensures
        r == 12868833,
{
    12868833
}

/// Default compute-unit price of a sell.
pub fn default_sell_cu_price() -> (r: u64)
    ensures
        r == 120000,
{
    120000
}

/// Default compute-unit price paired with the low tip.
pub fn default_low_cu_price() -> (r: u64)
    ensures
        r == 400000,
{
    400000
}

/// Default compute-unit price paired with the high tip.
pub fn default_high_cu_price() -> (r: u64)
    ensures
        r == 180000,
{
    180000
}

impl GasFeeParams {
    /// The gas settings used when `trading.yaml` has no gas section.
    pub fn defaults() -> (r: GasFeeParams)
        ensures
            r == (GasFeeParams {
                cu_limit: 200000,
                global_buy_cu_limit: 98467,
                global_sell_cu_limit: 93334,
                global_buy_cu_price: 12868833,
                global_sell_cu_price: 120000,
                low_tip_high_cu_price: 400000,
                high_tip_low_cu_price: 180000,
            }),
    {
        GasFeeParams {
            cu_limit: default_cu_limit(),
            global_buy_cu_limit: default_buy_cu_limit(),
            global_sell_cu_limit: default_sell_cu_limit(),
            global_buy_cu_price: default_buy_cu_price(),
            global_sell_cu_price: default_sell_cu_price(),
            low_tip_high_cu_price: default_low_cu_price(),
            high_tip_low_cu_price: default_high_cu_price(),
        }
    }
}

/// The slippage (buy, sell) in basis points a loop trades with: the configured values, or
/// 500 and 9980 without a trading configuration.
pub fn slippage_bps(trading: Option<&TradingParams>) -> (r: (u64, u64))
    ensures
        r == (match trading {
            Some(t) => (t.buy_slippage_bps, t.sell_slippage_bps),
            None => (500u64, 9980u64),
        }),
{
    match trading {
        Some(t) => (t.buy_slippage_bps, t.sell_slippage_bps),
        None => (default_buy_slippage_bps(), default_sell_slippage_bps()),
    }
}

/// Compute-unit limit of the fee strategy used without a trading configuration.
pub const FALLBACK_CU_LIMIT: u32 = 150_000;

/// Compute-unit price of the fee strategy used without a trading configuration.
pub const FALLBACK_CU_PRICE: u64 = 500_000;

/// Which fee strategy to install, and with which integer parameters.
#[derive(Debug, Clone, Copy, PartialEq, Eq, Structural)]
pub enum GasFeePlan {
    /// High/low strategies for buy and sell, per SWQoS provider, with the configured low and
    /// high tips.
    HighLow { cu_limit: u32, high_tip_low_cu_price: u64, low_tip_high_cu_price: u64 },
    /// One global strategy with the configured global tips.
    Global { buy_cu_limit: u32, sell_cu_limit: u32, buy_cu_price: u64, sell_cu_price: u64 },
    /// The global strategy used without configuration: `FALLBACK_CU_LIMIT`,
    /// `FALLBACK_CU_PRICE` and a 0.001 SOL tip for buy and sell.
    Fallback,
}

/// The fee strategy for a trading configuration (or its absence).
pub fn plan_gas_fee(trading: Option<&TradingParams>) -> (r: GasFeePlan)
    ensures
        r == (match trading {
            Some(t) => if t.enable_high_low_fee {
                GasFeePlan::HighLow {
                    cu_limit: t.gas_fee.cu_limit,
                    high_tip_low_cu_price: t.gas_fee.high_tip_low_cu_price,
                    low_tip_high_cu_price: t.gas_fee.low_tip_high_cu_price,
                }
            } else {
                GasFeePlan::Global {
                    buy_cu_limit: t.gas_fee.global_buy_cu_limit,
                    sell_cu_limit: t.gas_fee.global_sell_cu_limit,
                    buy_cu_price: t.gas_fee.global_buy_cu_price,
                    sell_cu_price: t.gas_fee.global_sell_cu_price,
                }
            },
            None => GasFeePlan::Fallback,
        }),
{
    match trading {
        Some(t) => {
            let g = &t.gas_fee;
            if t.enable_high_low_fee {
                GasFeePlan::HighLow {
                    cu_limit: g.cu_limit,
                    high_tip_low_cu_price: g.high_tip_low_cu_price,
                    low_tip_high_cu_price: g.low_tip_high_cu_price,
                }
            } else {
                GasFeePlan::Global {
                    buy_cu_limit: g.global_buy_cu_limit,
                    sell_cu_limit: g.global_sell_cu_limit,
                    buy_cu_price: g.global_buy_cu_price,
                    sell_cu_price: g.global_sell_cu_price,
                }
            }
        },
        None => GasFeePlan::Fallback,
    }
}

} // verus!
