//! Decision logic of the PumpFun / PumpSwap trading bots, verified with Verus.
pub mod freshness;
pub mod text;
pub mod vars;
pub mod cycle;
pub mod address;
pub mod events;
pub mod created_mints;
pub mod blockhash;
pub mod loaded_key;
pub mod keys;
pub mod config;
pub mod swqos;
pub mod settings;
pub mod startup;
pub mod pumpfun_run;
pub mod pumpswap_run;
