use pump_trader::config::NonceConfig;
use pump_trader::startup::{
    fallback_config, is_public_mainnet_rpc, keystore_base_dir, payer_source, plan_durable_nonces, resolve_config_path,
    resolve_keystore_path, resolve_rpc_url, trading_path_for, NonceError, PayerSource,
};
use pump_trader::swqos::SwqosConfig;

fn nonces(buy: &[&str], sell: &[&str]) -> NonceConfig {
    NonceConfig {
        buy_nonce_accounts: buy.iter().map(|s| s.to_string()).collect(),
        sell_nonce_accounts: sell.iter().map(|s| s.to_string()).collect(),
    }
}

#[test]
fn config_path_choice() {
    assert_eq!(resolve_config_path(Some("/etc/bot.yaml"), Some("prod")), "/etc/bot.yaml");
    assert_eq!(resolve_config_path(Some(""), None), "");
    assert_eq!(resolve_config_path(None, Some("prod")), "config/prod/solana.yaml");
    assert_eq!(resolve_config_path(None, Some("production")), "config/prod/solana.yaml");
    assert_eq!(resolve_config_path(None, Some("PROD")), "config/dev/solana.yaml");
    assert_eq!(resolve_config_path(None, None), "config/dev/solana.yaml");
}

#[test]
fn keystore_path_resolution() {
    assert_eq!(resolve_keystore_path("/app/config/dev/solana.yaml", "  "), "");
    assert_eq!(resolve_keystore_path("/app/config/dev/solana.yaml", " /keys/k.json "), "/keys/k.json");
    assert_eq!(
        resolve_keystore_path("/app/config/dev/solana.yaml", "./keystore.json"),
        "/app/config/dev/./keystore.json"
    );
    assert_eq!(resolve_keystore_path("solana.yaml", "k.json"), "k.json");
    assert_eq!(resolve_keystore_path("/", "k.json"), "./k.json");
}

#[test]
fn keystore_base_directory() {
    assert_eq!(keystore_base_dir(Some("/app/config".to_string())), "/app/config");
    assert_eq!(keystore_base_dir(Some(String::new())), "");
    assert_eq!(keystore_base_dir(None), ".");
}

#[test]
fn rpc_override_and_public_endpoint() {
    assert_eq!(resolve_rpc_url("http://cfg".to_string(), Some(" http://env ")), "http://env");
    assert_eq!(resolve_rpc_url("http://cfg".to_string(), Some("  ")), "http://cfg");
    assert_eq!(resolve_rpc_url("http://cfg".to_string(), None), "http://cfg");
    assert!(is_public_mainnet_rpc("https://api.mainnet-beta.solana.com"));
    assert!(!is_public_mainnet_rpc("http://my.rpc"));
}

#[test]
fn payer_source_choice() {
    match payer_source("  ./k.json ") {
        PayerSource::Keystore(p) => assert_eq!(p, "./k.json"),
        PayerSource::EnvBase58 => panic!("expected a keystore"),
    }
    assert!(matches!(payer_source(" "), PayerSource::EnvBase58));
}

#[test]
fn durable_nonce_plans() {
    assert!(plan_durable_nonces(1, None, None).unwrap().is_none());
    assert_eq!(plan_durable_nonces(2, None, None).unwrap_err(), NonceError::Required { swqos_count: 2 });
    assert_eq!(
        plan_durable_nonces(3, Some(&nonces(&["", " "], &[])), Some("  ")).unwrap_err(),
        NonceError::Required { swqos_count: 3 }
    );
    let p = plan_durable_nonces(2, Some(&nonces(&["", " "], &[""])), Some(" EnvNonce ")).unwrap().unwrap();
    assert_eq!((p.buy.as_str(), p.sell.as_str(), p.sell_same_as_buy), ("EnvNonce", "EnvNonce", true));
    let p = plan_durable_nonces(2, Some(&nonces(&["BuyA"], &["SellB"])), Some("Env")).unwrap().unwrap();
    assert_eq!((p.buy.as_str(), p.sell.as_str(), p.sell_same_as_buy), ("BuyA", "SellB", false));
    let p = plan_durable_nonces(2, Some(&nonces(&["BuyA"], &[])), Some("Env")).unwrap().unwrap();
    assert_eq!((p.buy.as_str(), p.sell.as_str()), ("BuyA", "Env"));
    let p = plan_durable_nonces(2, Some(&nonces(&["BuyA"], &[])), None).unwrap().unwrap();
    assert_eq!((p.buy.as_str(), p.sell.as_str(), p.sell_same_as_buy), ("BuyA", "BuyA", true));
}

#[test]
fn fallback_configuration() {
    let f = fallback_config(None, None);
    assert_eq!(f.rpc_url, "https://api.mainnet-beta.solana.com");
    assert_eq!(f.keystore_path, "");
    assert_eq!(f.swqos.len(), 1);
    match &f.swqos[0] {
        SwqosConfig::Default { rpc_url } => assert_eq!(rpc_url, "https://api.mainnet-beta.solana.com"),
        other => panic!("unexpected {:?}", other),
    }
    let f = fallback_config(Some("http://x"), Some("k.json"));
    assert_eq!((f.rpc_url.as_str(), f.keystore_path.as_str()), ("http://x", "k.json"));
}

#[test]
fn trading_config_sits_next_to_solana_yaml() {
    assert_eq!(trading_path_for("config/prod/solana.yaml"), "config/prod/trading.yaml");
    assert_eq!(trading_path_for("/etc/bot/solana.yaml"), "/etc/bot/trading.yaml");
    assert_eq!(trading_path_for("solana.yaml"), "trading.yaml");
    assert_eq!(trading_path_for("/"), "trading.yaml");
}
