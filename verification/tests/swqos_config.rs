use pump_trader::config::{
    default_buy_cu_limit, default_buy_cu_price, default_buy_slippage_bps, default_cu_limit,
    default_high_cu_price, default_low_cu_price, default_sell_cu_limit, default_sell_cu_price,
    default_sell_slippage_bps, plan_gas_fee, slippage_bps, GasFeeParams, GasFeePlan,
    NonceConfig, SolanaConfig, SwqosConfigSettings, SwqosProviderConfig, TradingParams,
};
use pump_trader::swqos::{
    build_swqos_configs, create_swqos_config, parse_region, provider_token_var, SwqosConfig,
    SwqosProvider, SwqosRegion,
};

fn provider(name: &str, token: Option<&str>, enabled: bool) -> SwqosProviderConfig {
    SwqosProviderConfig {
        provider: name.to_string(),
        api_token: token.map(|t| t.to_string()),
        enabled,
        transport: None,
    }
}

fn cfg(region: &str, providers: Vec<SwqosProviderConfig>) -> SolanaConfig {
    SolanaConfig {
        rpc_url: "http://rpc.local".to_string(),
        keystore_path: String::new(),
        nonce_config: None::<NonceConfig>,
        swqos: SwqosConfigSettings { region: region.to_string(), enabled_providers: providers },
    }
}

fn service(c: &SwqosConfig) -> (SwqosProvider, String, SwqosRegion) {
    match c {
        SwqosConfig::Service { provider, token, region } => (*provider, token.clone(), *region),
        SwqosConfig::Default { .. } => panic!("expected a service"),
    }
}

#[test]
fn regions_parse_with_new_york_fallback() {
    assert_eq!(parse_region("Frankfurt"), SwqosRegion::Frankfurt);
    assert_eq!(parse_region("SLC"), SwqosRegion::SLC);
    assert_eq!(parse_region("LosAngeles"), SwqosRegion::LosAngeles);
    assert_eq!(parse_region("Amsterdam"), SwqosRegion::Amsterdam);
    assert_eq!(parse_region("Tokyo"), SwqosRegion::Tokyo);
    assert_eq!(parse_region("London"), SwqosRegion::London);
    assert_eq!(parse_region("frankfurt"), SwqosRegion::NewYork);
    assert_eq!(parse_region(""), SwqosRegion::NewYork);
}

#[test]
fn provider_entries_map_to_channels() {
    let c = create_swqos_config("Jito", "uuid".to_string(), &SwqosRegion::Tokyo, "http://rpc").unwrap();
    assert_eq!(service(&c), (SwqosProvider::Jito, "uuid".to_string(), SwqosRegion::Tokyo));
    let c = create_swqos_config("Lightspeed", "t".to_string(), &SwqosRegion::London, "http://rpc").unwrap();
    assert_eq!(service(&c).0, SwqosProvider::Lightspeed);
    for name in ["Default", "Unknown", "jito"] {
        match create_swqos_config(name, "t".to_string(), &SwqosRegion::London, "http://rpc").unwrap() {
            SwqosConfig::Default { rpc_url } => assert_eq!(rpc_url, "http://rpc"),
            other => panic!("unexpected {:?}", other),
        }
    }
}

#[test]
fn provider_token_variables() {
    assert_eq!(provider_token_var("Jito"), Some("SWQOS_JITO_TOKEN"));
    assert_eq!(provider_token_var("Speedlanding"), Some("SWQOS_SPEEDLANDING_TOKEN"));
    assert_eq!(provider_token_var("Astralane"), Some("SWQOS_ASTRALANE_TOKEN"));
    assert_eq!(provider_token_var("Lightspeed"), None);
    assert_eq!(provider_token_var("Default"), None);
}

#[test]
fn channels_from_configuration() {
    let c = cfg(
        "Frankfurt",
        vec![
            provider("Jito", Some("file-jito"), true),
            provider("Node1", Some("file-node1"), false),
            provider("Astralane", Some("file-astra"), true),
            provider("Temporal", None, true),
        ],
    );
    let env = vec![Some("  ".to_string()), Some("env-node1".to_string()), Some("env-astra".to_string()), None];
    let out = build_swqos_configs(&c, None, &env);
    assert_eq!(out.len(), 3);
    assert_eq!(service(&out[0]), (SwqosProvider::Jito, "file-jito".to_string(), SwqosRegion::Frankfurt));
    assert_eq!(service(&out[1]), (SwqosProvider::Astralane, "env-astra".to_string(), SwqosRegion::Frankfurt));
    assert_eq!(service(&out[2]), (SwqosProvider::Temporal, String::new(), SwqosRegion::Frankfurt));
    let overridden = build_swqos_configs(&c, Some("Tokyo"), &env);
    assert_eq!(service(&overridden[0]).2, SwqosRegion::Tokyo);
    let odd = build_swqos_configs(&c, Some(""), &env);
    assert_eq!(service(&odd[0]).2, SwqosRegion::NewYork);
}

#[test]
fn no_enabled_provider_means_plain_rpc() {
    let c = cfg("Tokyo", vec![provider("Jito", Some("x"), false)]);
    let out = build_swqos_configs(&c, None, &vec![None]);
    assert_eq!(out.len(), 1);
    match &out[0] {
        SwqosConfig::Default { rpc_url } => assert_eq!(rpc_url, "http://rpc.local"),
        other => panic!("unexpected {:?}", other),
    }
    let empty = build_swqos_configs(&cfg("Tokyo", vec![]), None, &vec![]);
    assert_eq!(empty.len(), 1);
}

#[test]
fn config_defaults() {
    assert_eq!(default_buy_slippage_bps(), 500);
    assert_eq!(default_sell_slippage_bps(), 9980);
    assert_eq!(default_cu_limit(), 200000);
    assert_eq!(default_buy_cu_limit(), 98467);
    assert_eq!(default_sell_cu_limit(), 93334);
    assert_eq!(default_buy_cu_price(), 12868833);
    assert_eq!(default_sell_cu_price(), 120000);
    assert_eq!(default_low_cu_price(), 400000);
    assert_eq!(default_high_cu_price(), 180000);
    let g = GasFeeParams::defaults();
    assert_eq!(g.cu_limit, 200000);
    assert_eq!(g.high_tip_low_cu_price, 180000);
}

#[test]
fn gas_fee_plans_and_slippage() {
    let g = GasFeeParams::defaults();
    let t = TradingParams { buy_slippage_bps: 100, sell_slippage_bps: 200, enable_high_low_fee: false, gas_fee: g };
    assert_eq!(
        plan_gas_fee(Some(&t)),
        GasFeePlan::Global { buy_cu_limit: 98467, sell_cu_limit: 93334, buy_cu_price: 12868833, sell_cu_price: 120000 }
    );
    let hl = TradingParams { enable_high_low_fee: true, ..t };
    assert_eq!(
        plan_gas_fee(Some(&hl)),
        GasFeePlan::HighLow { cu_limit: 200000, high_tip_low_cu_price: 180000, low_tip_high_cu_price: 400000 }
    );
    assert_eq!(plan_gas_fee(None), GasFeePlan::Fallback);
    assert_eq!(slippage_bps(Some(&t)), (100, 200));
    assert_eq!(slippage_bps(None), (500, 9980));
}
