//! Startup decisions of the trading loops: which configuration file, RPC endpoint, wallet
//! source and durable nonce accounts to use.
use vstd::prelude::*;
use std::path::Path;
use crate::config::NonceConfig;
use crate::settings::DEFAULT_RPC_URL;
use crate::swqos::{SwqosConfig, SwqosConfigView};
use crate::text::{str_contains_lit, str_eq_lit, trim, trim_seq, contains_seq};
use crate::vars::{env_string, first_nonempty_account, opt_str, opt_string, spec_env_string, spec_first_nonempty};

verus! {

/// The configuration file: `CONFIG_FILE` when set (as given), else `config/prod/solana.yaml`
/// when `APP_ENV` is `prod` or `production`, else `config/dev/solana.yaml`.
pub open spec fn spec_config_path(config_file: Option<Seq<char>>, app_env: Option<Seq<char>>) -> Seq<char> {
    match config_file {
        Some(p) => p,
        None => {
            let env = match app_env {
                Some(e) => e,
                None => "dev"@,
            };
            if env == "prod"@ || env == "production"@ {
                "config/prod/solana.yaml"@
            } else {
                "config/dev/solana.yaml"@
            }
        },
    }
}

/// The path of `solana.yaml`, from the raw `CONFIG_FILE` and `APP_ENV` settings.
pub fn resolve_config_path(config_file: Option<&str>, app_env: Option<&str>) -> (r: String)
    ensures
        r@ == spec_config_path(opt_str(config_file), opt_str(app_env)),
{
    match config_file {
        Some(p) => {
            String::from_str(p)
        },
        None => {
            let prod = match app_env {
                Some(e) => str_eq_lit(e, "prod") || str_eq_lit(e, "production"),
                None => {
                    assert("dev"@ != "prod"@ && "dev"@ != "production"@) by {
                        reveal_strlit("dev");
                        reveal_strlit("prod");
                        reveal_strlit("production");
                        assert("dev"@.len() == 3);
                        assert("prod"@.len() == 4);
                        assert("production"@.len() == 10);
                    }
                    false
                },
            };
            if prod {
                String::from_str("config/prod/solana.yaml")
            } else {
                String::from_str("config/dev/solana.yaml")
            }
        },
    }
}

/// Whether std's `Path::is_absolute` holds of the path `p`, on the platform the crate is built
/// for (a function of the text alone there).
pub uninterp spec fn spec_path_is_absolute(p: Seq<char>) -> bool;

/// What std's `Path::parent` gives for the path `p`, as text, on the platform the crate is
/// built for.
pub uninterp spec fn spec_path_parent(p: Seq<char>) -> Option<Seq<char>>;

/// What std's `Path::join` gives for `base` joined with `rel`, as text, on the platform the
/// crate is built for.
pub uninterp spec fn spec_path_join(base: Seq<char>, rel: Seq<char>) -> Seq<char>;

/// Calls `Path::is_absolute` of std on `p`. Claimed: the result is the named function of
/// the text. Not stated: which texts are absolute (that depends on the target platform).
#[verifier::external_body]
fn path_is_absolute(p: &str) -> (r: bool)
    ensures
        r == spec_path_is_absolute(p@),
{
    Path::new(p).is_absolute()
}

/// Calls `Path::parent` of std on `p`, as text (a parent of a UTF-8 path is a prefix of it,
/// so nothing is lost). Claimed: the result is the named function of the text. Not stated:
/// where the parent ends (path syntax depends on the target platform).
#[verifier::external_body]
fn path_parent(p: &str) -> (r: Option<String>)
    ensures
        match r {
            Some(d) => spec_path_parent(p@) == Some(d@),
            None => spec_path_parent(p@) is None,
        },
{
    Path::new(p).parent().map(|d| d.to_string_lossy().into_owned())
}

/// Calls `Path::join` of std, as text. Claimed: the result is the named function of the two
/// texts. Not stated: the separator used and how an absolute or prefixed `rel` replaces
/// `base` (path syntax depends on the target platform).
#[verifier::external_body]
fn path_join(base: &str, rel: &str) -> (r: String)
    ensures
        r@ == spec_path_join(base@, rel@),
{
    Path::new(base).join(rel).to_string_lossy().into_owned()
}

/// The directory a relative keystore path is resolved against: the configuration file's
/// parent, or `.` when it has none.
pub open spec fn spec_keystore_base(parent: Option<Seq<char>>) -> Seq<char> {
    match parent {
        Some(d) => d,
        None => "."@,
    }
}

/// The directory a relative keystore path is resolved against, from what `Path::parent`
/// gave for the configuration file.
pub fn keystore_base_dir(parent: Option<String>) -> (r: String)
    ensures
        r@ == spec_keystore_base(opt_string(parent)),
{
    match parent {
        Some(d) => d,
        None => String::from_str("."),
    }
}

/// The keystore path: empty when blank; the trimmed text when it is absolute; else the
/// trimmed text joined to the configuration file's directory.
pub open spec fn spec_keystore_path(config_file: Seq<char>, keystore_from_yaml: Seq<char>) -> Seq<char> {
    let s = trim_seq(keystore_from_yaml);
    if s.len() == 0 {
        Seq::empty()
    } else if spec_path_is_absolute(s) {
        s
    } else {
        spec_path_join(spec_keystore_base(spec_path_parent(config_file)), s)
    }
}

/// The keystore path of `solana.yaml` (trimmed), resolved against the directory of the
/// configuration file when it is relative; empty when blank.
pub fn resolve_keystore_path(config_file: &str, keystore_from_yaml: &str) -> (r: String)
    ensures
        r@ == spec_keystore_path(config_file@, keystore_from_yaml@),
{
    let s = trim(keystore_from_yaml);
    if s.as_str().is_empty() {
        return String::new();
    }
    if path_is_absolute(s.as_str()) {
        return s;
    }
    let base = keystore_base_dir(path_parent(config_file));
    path_join(base.as_str(), s.as_str())
}

/// Where `trading.yaml` is looked for: next to the configuration file, else in the working
/// directory.
pub open spec fn spec_trading_path(config_file: Seq<char>) -> Seq<char> {
    match spec_path_parent(config_file) {
        Some(d) => spec_path_join(d, "trading.yaml"@),
        None => "trading.yaml"@,
    }
}

/// The path of `trading.yaml` for the configuration file `config_file`.
pub fn trading_path_for(config_file: &str) -> (r: String)
    ensures
        r@ == spec_trading_path(config_file@),
{
    match path_parent(config_file) {
        Some(d) => path_join(d.as_str(), "trading.yaml"),
        None => String::from_str("trading.yaml"),
    }
}

/// Law: resolving a keystore path that is already resolved changes nothing, whenever the
/// resolved path is absolute and has no surrounding whitespace (it is then taken as given).
pub proof fn law_resolved_keystore_path_is_stable(config_file: Seq<char>, keystore_from_yaml: Seq<char>)
    requires
        spec_path_is_absolute(spec_keystore_path(config_file, keystore_from_yaml)),
        trim_seq(spec_keystore_path(config_file, keystore_from_yaml)) == spec_keystore_path(
            config_file,
            keystore_from_yaml,
        ),
        spec_keystore_path(config_file, keystore_from_yaml).len() > 0,
    ensures
        spec_keystore_path(config_file, spec_keystore_path(config_file, keystore_from_yaml))
            == spec_keystore_path(config_file, keystore_from_yaml),
{
}

/// The RPC endpoint: the override (trimmed) when it is not blank, else the configured one.
pub fn resolve_rpc_url(configured: String, env_override: Option<&str>) -> (r: String)
    ensures
        r@ == (match spec_env_string(opt_str(env_override)) {
            Some(v) => v,
            None => configured@,
        }),
{
    match env_string(env_override) {
        Some(v) => v,
        None => configured,
    }
}

/// Whether the endpoint is Solana's public mainnet RPC (slow for trading).
pub fn is_public_mainnet_rpc(url: &str) -> (r: bool)
    ensures
        r == contains_seq(url@, "api.mainnet-beta.solana.com"@),
{
    str_contains_lit(url, "api.mainnet-beta.solana.com")
}

/// Where the wallet comes from.
#[derive(Debug, Clone)]
pub enum PayerSource {
    /// The keystore at this (trimmed) path.
    Keystore(String),
    /// A base58 key in `KEYPAIR_BASE58`.
    EnvBase58,
}

/// The keystore when a path is configured (after trimming), else the environment key.
pub fn payer_source(keystore_path: &str) -> (r: PayerSource)
    ensures
        trim_seq(keystore_path@).len() == 0 ==> r is EnvBase58,
        trim_seq(keystore_path@).len() > 0 ==> (r matches PayerSource::Keystore(p) && p@ == trim_seq(
            keystore_path@,
        )),
{
    let t = trim(keystore_path);
    if t.as_str().is_empty() {
        PayerSource::EnvBase58
    } else {
        PayerSource::Keystore(t)
    }
}

/// The durable nonce accounts for buys and sells.
#[derive(Debug, Clone)]
pub struct NonceAccounts {
    pub buy: String,
    pub sell: String,
    /// Whether the sell account is the buy account (its state is then fetched once).
    pub sell_same_as_buy: bool,
}

/// Why no durable nonce could be chosen.
#[derive(Debug, Clone, Copy, PartialEq, Eq, Structural)]
pub enum NonceError {
    /// Several providers submit in parallel, which needs a durable nonce, and none is set.
    Required { swqos_count: usize },
}

/// The first non-blank configured account of a list, if there is a configuration.
pub open spec fn configured_first(cfg: Option<NonceConfig>, buy: bool) -> Option<Seq<char>> {
    match cfg {
        Some(c) => spec_first_nonempty(if buy { c.buy_nonce_accounts@ } else { c.sell_nonce_accounts@ }),
        None => None,
    }
}

/// `a`, or else `b`.
pub open spec fn or_else(a: Option<Seq<char>>, b: Option<Seq<char>>) -> Option<Seq<char>> {
    match a {
        Some(x) => Some(x),
        None => b,
    }
}

/// The nonce accounts to use: none with a single provider; with several, the buy account is
/// the first non-blank configured one or else `NONCE_ACCOUNT` (required), and the sell
/// account the first non-blank configured one, else `NONCE_ACCOUNT`, else the buy account.
pub open spec fn spec_nonce_plan(
    swqos_count: usize,
    cfg: Option<NonceConfig>,
    env_nonce: Option<Seq<char>>,
) -> Result<Option<(Seq<char>, Seq<char>)>, NonceError> {
    if swqos_count <= 1 {
        Ok(None)
    } else {
        let env = spec_env_string(env_nonce);
        match or_else(configured_first(cfg, true), env) {
            None => Err(NonceError::Required { swqos_count }),
            Some(buy) => {
                let sell = match or_else(configured_first(cfg, false), env) {
                    Some(s) => s,
                    None => buy,
                };
                Ok(Some((buy, sell)))
            },
        }
    }
}

/// Chooses the durable nonce accounts from the configuration and the raw `NONCE_ACCOUNT`
/// setting.
pub fn plan_durable_nonces(
    swqos_count: usize,
    nonce_config: Option<&NonceConfig>,
    env_nonce: Option<&str>,
) -> (r: Result<Option<NonceAccounts>, NonceError>)
    ensures
        match spec_nonce_plan(
            swqos_count,
            match nonce_config {
                Some(c) => Some(*c),
                None => None,
            },
            opt_str(env_nonce),
        ) {
            Ok(None) => r matches Ok(None),
            Ok(Some((b, s))) => r matches Ok(Some(a)) && a.buy@ == b && a.sell@ == s
                && a.sell_same_as_buy == (s == b),
            Err(e) => r matches Err(x) && x == e,
        },
{
    if swqos_count <= 1 {
        return Ok(None);
    }
    let env = env_string(env_nonce);
    let buy_cfg = match nonce_config {
        Some(c) => first_nonempty_account(c.buy_nonce_accounts.as_slice()),
        None => None,
    };
    let buy = match buy_cfg {
        Some(b) => b,
        None => match &env {
            Some(e) => e.clone(),
            None => {
                return Err(NonceError::Required { swqos_count });
            },
        },
    };
    let sell_cfg = match nonce_config {
        Some(c) => first_nonempty_account(c.sell_nonce_accounts.as_slice()),
        None => None,
    };
    let sell = match sell_cfg {
        Some(s) => s,
        None => match &env {
            Some(e) => e.clone(),
            None => buy.clone(),
        },
    };
    let same = sell == buy;
    Ok(Some(NonceAccounts { buy, sell, sell_same_as_buy: same }))
}

/// What a loop runs with when `solana.yaml` does not exist.
#[derive(Debug, Clone)]
pub struct FallbackConfig {
    /// `SOLANA_RPC_URL` as given, else the public endpoint.
    pub rpc_url: String,
    /// Plain RPC submission only.
    pub swqos: Vec<SwqosConfig>,
    /// `KEYSTORE_PATH` as given, else empty.
    pub keystore_path: String,
}

/// The configuration used without `solana.yaml`, from the raw `SOLANA_RPC_URL` and
/// `KEYSTORE_PATH` settings.
pub fn fallback_config(solana_rpc_url: Option<&str>, keystore_path: Option<&str>) -> (r: FallbackConfig)
    ensures
        r.rpc_url@ == (match solana_rpc_url {
            Some(u) => u@,
            None => DEFAULT_RPC_URL@,
        }),
        r.swqos@.len() == 1,
        r.swqos@[0]@ == (SwqosConfigView::Default { rpc_url: r.rpc_url@ }),
        r.keystore_path@ == (match keystore_path {
            Some(k) => k@,
            None => Seq::<char>::empty(),
        }),
{
    let rpc_url = match solana_rpc_url {
        Some(u) => String::from_str(u),
        None => String::from_str(DEFAULT_RPC_URL),
    };
    let mut swqos: Vec<SwqosConfig> = Vec::new();
    swqos.push(SwqosConfig::Default { rpc_url: rpc_url.clone() });
    let keystore_path = match keystore_path {
        Some(k) => String::from_str(k),
        None => String::new(),
    };
    FallbackConfig { rpc_url, swqos, keystore_path }
}

/// Law: parallel submission through several providers never goes without a durable nonce:
/// with more than one provider the plan fails exactly when neither the configuration nor
/// `NONCE_ACCOUNT` names a buy nonce account.
pub proof fn law_parallel_submission_needs_nonce(
    swqos_count: usize,
    cfg: Option<NonceConfig>,
    env_nonce: Option<Seq<char>>,
)
    requires
        swqos_count > 1,
    ensures
        spec_nonce_plan(swqos_count, cfg, env_nonce) is Err <==> (configured_first(cfg, true) is None
            && spec_env_string(env_nonce) is None),
        spec_nonce_plan(swqos_count, cfg, env_nonce) is Ok ==> spec_nonce_plan(swqos_count, cfg, env_nonce)->Ok_0 is Some,
{
}

/// Law: a single provider needs no durable nonce.
pub proof fn law_single_provider_needs_no_nonce(
    swqos_count: usize,
    cfg: Option<NonceConfig>,
    env_nonce: Option<Seq<char>>,
)
    requires
        swqos_count <= 1,
    ensures
        spec_nonce_plan(swqos_count, cfg, env_nonce) == Ok::<Option<(Seq<char>, Seq<char>)>, NonceError>(None),
{
}

/// Law: blank placeholders in the configured nonce lists are skipped, so `NONCE_ACCOUNT`
/// still applies when a list holds nothing else; the sell side falls back to the buy
/// account last.
pub proof fn law_blank_nonce_placeholders_skipped(
    swqos_count: usize,
    c: NonceConfig,
    env_nonce: Seq<char>,
)
    requires
        swqos_count > 1,
        spec_first_nonempty(c.buy_nonce_accounts@) is None,
        spec_first_nonempty(c.sell_nonce_accounts@) is None,
        trim_seq(env_nonce).len() > 0,
    ensures
        spec_nonce_plan(swqos_count, Some(c), Some(env_nonce)) == Ok::<Option<(Seq<char>, Seq<char>)>, NonceError>(
            Some((trim_seq(env_nonce), trim_seq(env_nonce))),
        ),
{
}

/// Law: with several providers, each side's nonce account comes from its own configured
/// list whenever that list has a non-blank entry (its first one, trimmed), whatever the other
/// side's account came from; `NONCE_ACCOUNT` (trimmed) fills a side whose list has none.
pub proof fn law_each_side_uses_its_own_configured_nonce(
    swqos_count: usize,
    c: NonceConfig,
    env_nonce: Option<Seq<char>>,
)
    requires
        swqos_count > 1,
    ensures
        spec_first_nonempty(c.sell_nonce_accounts@) matches Some(s) ==> match spec_nonce_plan(
            swqos_count,
            Some(c),
            env_nonce,
        ) {
            Ok(Some((_, sell))) => sell == s,
            Ok(None) => false,
            Err(_) => spec_first_nonempty(c.buy_nonce_accounts@) is None && spec_env_string(env_nonce) is None,
        },
        spec_first_nonempty(c.buy_nonce_accounts@) matches Some(b) ==> match spec_nonce_plan(
            swqos_count,
            Some(c),
            env_nonce,
        ) {
            Ok(Some((buy, _))) => buy == b,
            _ => false,
        },
        spec_first_nonempty(c.buy_nonce_accounts@) is None && spec_env_string(env_nonce) is Some
            ==> match spec_nonce_plan(swqos_count, Some(c), env_nonce) {
            Ok(Some((buy, sell))) => buy == spec_env_string(env_nonce)->0 && (spec_first_nonempty(
                c.sell_nonce_accounts@,
            ) is None ==> sell == spec_env_string(env_nonce)->0),
            _ => false,
        },
{
}

/// Law: `CONFIG_FILE`, when set, is the configuration file as given; otherwise `APP_ENV`
/// set to `prod` or `production` selects the production file, and anything else (or nothing)
/// the development file.
pub proof fn law_config_file_choice(config_file: Option<Seq<char>>, app_env: Option<Seq<char>>)
    ensures
        config_file matches Some(p) ==> spec_config_path(config_file, app_env) == p,
        config_file is None && (app_env == Some("prod"@) || app_env == Some("production"@))
            ==> spec_config_path(config_file, app_env) == "config/prod/solana.yaml"@,
        config_file is None && app_env != Some("prod"@) && app_env != Some("production"@)
            ==> spec_config_path(config_file, app_env) == "config/dev/solana.yaml"@,
{
    reveal_strlit("dev");
    reveal_strlit("prod");
    reveal_strlit("production");
    assert("dev"@.len() == 3 && "prod"@.len() == 4 && "production"@.len() == 10);
}

} // verus!
