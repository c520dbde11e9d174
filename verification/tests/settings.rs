use pump_trader::address::Address;
use pump_trader::cycle::SellSizing;
use pump_trader::settings::{
    grpc_settings_from_env, shred_settings_from_env, validate_settings, AccountPolicy, BuyAmount,
    BuyMode, NumericSetting, SettingsError, SniperEnv,
};
use solana_sdk::pubkey::Pubkey;

fn empty_env() -> SniperEnv {
    SniperEnv {
        rpc_url: None,
        solana_rpc_url: None,
        grpc_endpoint: None,
        grpc_auth_token: None,
        shredstream_endpoint: None,
        target_mint: None,
        require_created_buy: None,
        buy_slippage_bps: None,
        sell_slippage_bps: None,
        hold_seconds: None,
        max_event_age_ms: None,
        wait_tx_confirmed: None,
        wait_for_all_submits: None,
        assume_prepared_atas: None,
        buy_mode: None,
    }
}

fn s(v: &str) -> Option<String> {
    Some(v.to_string())
}

#[test]
fn grpc_defaults() {
    let g = grpc_settings_from_env(&empty_env(), Some(10_000_000)).unwrap();
    assert_eq!(g.rpc_url, "https://api.mainnet-beta.solana.com");
    assert_eq!(g.grpc_endpoint, "https://solana-yellowstone-grpc.publicnode.com:443");
    assert_eq!(g.grpc_auth_token, None);
    assert!(g.target_mint.is_none());
    assert!(g.require_created_buy);
    assert_eq!(g.buy_lamports, 10_000_000);
    assert_eq!((g.buy_slippage_bps, g.sell_slippage_bps, g.hold_seconds), (300, 500, 3));
    assert!(g.wait_tx_confirmed);
    assert_eq!(g.max_event_age_ms, 1000);
    assert!(!g.wait_for_all_submits);
    assert!(!g.assume_prepared_atas);
    assert_eq!(g.buy_mode, BuyMode::WithMaxInput);
    assert_eq!(g.account_policy(), AccountPolicy::Auto);
    let p = g.cycle_plan();
    assert_eq!((p.rounds, p.hold_secs, p.sizing), (1, 3, SellSizing::NewTokensOnly));
}

#[test]
fn grpc_values_and_errors() {
    let mint = Pubkey::new_from_array([3u8; 32]);
    let mut env = empty_env();
    env.rpc_url = s("  ");
    env.solana_rpc_url = s(" http://sol ");
    env.grpc_auth_token = s("tok");
    env.target_mint = s(&mint.to_string());
    env.require_created_buy = s("no");
    env.hold_seconds = s("9");
    env.max_event_age_ms = s("250");
    env.buy_mode = s("EXACT_INPUT");
    env.wait_for_all_submits = s("yes");
    env.assume_prepared_atas = s("1");
    let g = grpc_settings_from_env(&env, Some(1)).unwrap();
    assert_eq!(g.max_event_age_ms, 250);
    assert_eq!(g.buy_mode, BuyMode::ExactInput);
    assert!(g.wait_for_all_submits);
    assert_eq!(g.account_policy(), AccountPolicy::HotPathMinimal);
    assert_eq!(g.rpc_url, "http://sol");
    assert_eq!(g.grpc_auth_token.as_deref(), Some("tok"));
    assert!(g.target_mint.unwrap().same(&Address::new([3u8; 32])));
    assert!(!g.require_created_buy);
    assert_eq!(g.hold_seconds, 9);

    let mut bad = env.clone();
    bad.target_mint = s("not-a-key!");
    bad.buy_slippage_bps = s("x");
    assert_eq!(grpc_settings_from_env(&bad, None).unwrap_err(), SettingsError::InvalidTargetMint);
    let mut bad = env.clone();
    bad.buy_slippage_bps = s("x");
    assert_eq!(grpc_settings_from_env(&bad, None).unwrap_err(), SettingsError::InvalidBuyAmount);
    assert_eq!(
        grpc_settings_from_env(&bad, Some(1)).unwrap_err(),
        SettingsError::NotU64(NumericSetting::BuySlippageBps)
    );
    let mut bad = env.clone();
    bad.sell_slippage_bps = s("-1");
    assert_eq!(
        grpc_settings_from_env(&bad, Some(1)).unwrap_err(),
        SettingsError::NotU64(NumericSetting::SellSlippageBps)
    );
    let mut bad = env.clone();
    bad.hold_seconds = s("3s");
    assert_eq!(
        grpc_settings_from_env(&bad, Some(1)).unwrap_err(),
        SettingsError::NotU64(NumericSetting::HoldSeconds)
    );
    let mut bad = env.clone();
    bad.max_event_age_ms = s("soon");
    assert_eq!(
        grpc_settings_from_env(&bad, Some(1)).unwrap_err(),
        SettingsError::NotU64(NumericSetting::MaxEventAgeMs)
    );
    let mut bad = env.clone();
    bad.buy_mode = s("market");
    assert_eq!(grpc_settings_from_env(&bad, Some(1)).unwrap_err(), SettingsError::InvalidBuyMode);
    let mut bad = env.clone();
    bad.max_event_age_ms = s("0");
    assert_eq!(grpc_settings_from_env(&bad, Some(1)).unwrap_err(), SettingsError::MaxEventAgeOutOfRange);
    bad.max_event_age_ms = s("9223372036854776");
    assert_eq!(grpc_settings_from_env(&bad, Some(1)).unwrap_err(), SettingsError::MaxEventAgeOutOfRange);
    bad.max_event_age_ms = s("9223372036854775");
    assert!(grpc_settings_from_env(&bad, Some(1)).is_ok());
    let mut bad = env.clone();
    bad.wait_tx_confirmed = s("false");
    assert_eq!(grpc_settings_from_env(&bad, Some(1)).unwrap_err(), SettingsError::WaitTxConfirmedRequired);
}

#[test]
fn shred_defaults_and_modes() {
    let sh = shred_settings_from_env(&empty_env(), Some(5)).unwrap();
    assert_eq!(sh.shredstream_endpoint, "http://127.0.0.1:10800");
    assert_eq!((sh.buy_slippage_bps, sh.sell_slippage_bps, sh.hold_seconds, sh.max_event_age_ms), (300, 500, 3, 1000));
    assert!(sh.wait_tx_confirmed && !sh.wait_for_all_submits && !sh.assume_prepared_atas);
    assert_eq!(sh.buy_mode, BuyMode::WithMaxInput);
    assert_eq!(sh.account_policy(), AccountPolicy::Auto);
    assert_eq!(sh.cycle_plan().sizing, SellSizing::NewTokensOnly);
    let mut env = empty_env();
    env.buy_mode = s(" EXACT_INPUT ");
    env.assume_prepared_atas = s("1");
    let sh = shred_settings_from_env(&env, Some(5)).unwrap();
    assert_eq!(sh.buy_mode, BuyMode::ExactInput);
    assert_eq!(sh.account_policy(), AccountPolicy::HotPathMinimal);
    assert_eq!(BuyMode::ExactInput.amount(7), BuyAmount::ExactInput(7));
    assert_eq!(BuyMode::WithMaxInput.amount(7), BuyAmount::WithMaxInput { quote_amount: 7 });
}

#[test]
fn shred_errors_in_order() {
    let mut env = empty_env();
    env.buy_mode = s("market");
    assert_eq!(shred_settings_from_env(&env, Some(5)).unwrap_err(), SettingsError::InvalidBuyMode);
    env.max_event_age_ms = s("soon");
    assert_eq!(
        shred_settings_from_env(&env, Some(5)).unwrap_err(),
        SettingsError::NotU64(NumericSetting::MaxEventAgeMs)
    );
    let env = empty_env();
    assert_eq!(shred_settings_from_env(&env, Some(0)).unwrap_err(), SettingsError::ZeroBuyAmount);
    let mut env = empty_env();
    env.sell_slippage_bps = s("10000");
    assert_eq!(shred_settings_from_env(&env, Some(5)).unwrap_err(), SettingsError::SlippageTooHigh);
    let mut env = empty_env();
    env.max_event_age_ms = s("0");
    assert_eq!(shred_settings_from_env(&env, Some(5)).unwrap_err(), SettingsError::MaxEventAgeOutOfRange);
    env.max_event_age_ms = s("9223372036854776");
    assert_eq!(shred_settings_from_env(&env, Some(5)).unwrap_err(), SettingsError::MaxEventAgeOutOfRange);
    env.max_event_age_ms = s("9223372036854775");
    assert!(shred_settings_from_env(&env, Some(5)).is_ok());
    let mut env = empty_env();
    env.wait_tx_confirmed = s("0");
    assert_eq!(shred_settings_from_env(&env, Some(5)).unwrap_err(), SettingsError::WaitTxConfirmedRequired);
}

#[test]
fn validate_settings_directly() {
    let sh = shred_settings_from_env(&empty_env(), Some(5)).unwrap();
    assert_eq!(validate_settings(&sh), Ok(()));
    let mut bad = sh.clone();
    bad.buy_slippage_bps = 10_000;
    assert_eq!(validate_settings(&bad), Err(SettingsError::SlippageTooHigh));
}
