//! Which SWQoS (transaction submission) services a loop sends through, built from the
//! provider list of `solana.yaml` and tokens found in the environment.
use vstd::prelude::*;
use crate::config::{SolanaConfig, SwqosProviderConfig};
use crate::text::{str_eq_lit, trim, trim_seq, upper_seq};
use crate::vars::{opt_str, opt_string};

verus! {

/// A SWQoS region.
#[derive(Debug, Clone, Copy, PartialEq, Eq, Structural)]
pub enum SwqosRegion {
    NewYork,
    Frankfurt,
    Amsterdam,
    SLC,
    Tokyo,
    London,
    LosAngeles,
}

/// A SWQoS service that takes an API token.
#[derive(Debug, Clone, Copy, PartialEq, Eq, Structural)]
pub enum SwqosProvider {
    Jito,
    NextBlock,
    Bloxroute,
    ZeroSlot,
    Temporal,
    FlashBlock,
    Node1,
    BlockRazor,
    Astralane,
    Stellium,
    Lightspeed,
    Soyas,
    Speedlanding,
}

/// A configured submission channel.
#[derive(Debug, Clone)]
pub enum SwqosConfig {
    /// A token-authenticated service in a region.
    Service { provider: SwqosProvider, token: String, region: SwqosRegion },
    /// Plain submission through the RPC endpoint.
    Default { rpc_url: String },
}

/// A submission channel with its strings as character sequences.
pub enum SwqosConfigView {
    Service { provider: SwqosProvider, token: Seq<char>, region: SwqosRegion },
    Default { rpc_url: Seq<char> },
}

impl View for SwqosConfig {
    type V = SwqosConfigView;

    open spec fn view(&self) -> SwqosConfigView {
        match self {
            SwqosConfig::Service { provider, token, region } => SwqosConfigView::Service {
                provider: *provider,
                token: token@,
                region: *region,
            },
            SwqosConfig::Default { rpc_url } => SwqosConfigView::Default { rpc_url: rpc_url@ },
        }
    }
}

/// The region a name stands for; an unknown name means New York.
pub open spec fn region_of(name: Seq<char>) -> SwqosRegion {
    if name == "NewYork"@ {
        SwqosRegion::NewYork
    } else if name == "Frankfurt"@ {
        SwqosRegion::Frankfurt
    } else if name == "Amsterdam"@ {
        SwqosRegion::Amsterdam
    } else if name == "SLC"@ {
        SwqosRegion::SLC
    } else if name == "Tokyo"@ {
        SwqosRegion::Tokyo
    } else if name == "London"@ {
        SwqosRegion::London
    } else if name == "LosAngeles"@ {
        SwqosRegion::LosAngeles
    } else {
        SwqosRegion::NewYork
    }
}

/// The region named `s` (New York for an unknown name).
pub fn parse_region(s: &str) -> (r: SwqosRegion)
    ensures
        r == region_of(s@),
{
    if str_eq_lit(s, "NewYork") {
        SwqosRegion::NewYork
    } else if str_eq_lit(s, "Frankfurt") {
        SwqosRegion::Frankfurt
    } else if str_eq_lit(s, "Amsterdam") {
        SwqosRegion::Amsterdam
    } else if str_eq_lit(s, "SLC") {
        SwqosRegion::SLC
    } else if str_eq_lit(s, "Tokyo") {
        SwqosRegion::Tokyo
    } else if str_eq_lit(s, "London") {
        SwqosRegion::London
    } else if str_eq_lit(s, "LosAngeles") {
        SwqosRegion::LosAngeles
    } else {
        SwqosRegion::NewYork
    }
}

/// The token-authenticated service a provider name stands for; `Default` and unknown names
/// stand for none (plain RPC submission).
pub open spec fn provider_of(name: Seq<char>) -> Option<SwqosProvider> {
    if name == "Jito"@ {
        Some(SwqosProvider::Jito)
    } else if name == "NextBlock"@ {
        Some(SwqosProvider::NextBlock)
    } else if name == "Bloxroute"@ {
        Some(SwqosProvider::Bloxroute)
    } else if name == "ZeroSlot"@ {
        Some(SwqosProvider::ZeroSlot)
    } else if name == "Temporal"@ {
        Some(SwqosProvider::Temporal)
    } else if name == "FlashBlock"@ {
        Some(SwqosProvider::FlashBlock)
    } else if name == "Node1"@ {
        Some(SwqosProvider::Node1)
    } else if name == "BlockRazor"@ {
        Some(SwqosProvider::BlockRazor)
    } else if name == "Astralane"@ {
        Some(SwqosProvider::Astralane)
    } else if name == "Stellium"@ {
        Some(SwqosProvider::Stellium)
    } else if name == "Lightspeed"@ {
        Some(SwqosProvider::Lightspeed)
    } else if name == "Soyas"@ {
        Some(SwqosProvider::Soyas)
    } else if name == "Speedlanding"@ {
        Some(SwqosProvider::Speedlanding)
    } else {
        None
    }
}

fn provider_named(name: &str) -> (r: Option<SwqosProvider>)
    ensures
        r == provider_of(name@),
{
    if str_eq_lit(name, "Jito") {
        Some(SwqosProvider::Jito)
    } else if str_eq_lit(name, "NextBlock") {
        Some(SwqosProvider::NextBlock)
    } else if str_eq_lit(name, "Bloxroute") {
        Some(SwqosProvider::Bloxroute)
    } else if str_eq_lit(name, "ZeroSlot") {
        Some(SwqosProvider::ZeroSlot)
    } else if str_eq_lit(name, "Temporal") {
        Some(SwqosProvider::Temporal)
    } else if str_eq_lit(name, "FlashBlock") {
        Some(SwqosProvider::FlashBlock)
    } else if str_eq_lit(name, "Node1") {
        Some(SwqosProvider::Node1)
    } else if str_eq_lit(name, "BlockRazor") {
        Some(SwqosProvider::BlockRazor)
    } else if str_eq_lit(name, "Astralane") {
        Some(SwqosProvider::Astralane)
    } else if str_eq_lit(name, "Stellium") {
        Some(SwqosProvider::Stellium)
    } else if str_eq_lit(name, "Lightspeed") {
        Some(SwqosProvider::Lightspeed)
    } else if str_eq_lit(name, "Soyas") {
        Some(SwqosProvider::Soyas)
    } else if str_eq_lit(name, "Speedlanding") {
        Some(SwqosProvider::Speedlanding)
    } else {
        None
    }
}

/// The channel for a provider entry: its service with `token` in `region`, or plain RPC
/// submission through `rpc_url` for `Default` and unknown names.
pub open spec fn config_for(
    name: Seq<char>,
    token: Seq<char>,
    region: SwqosRegion,
    rpc_url: Seq<char>,
) -> SwqosConfigView {
    match provider_of(name) {
        Some(p) => SwqosConfigView::Service { provider: p, token, region },
        None => SwqosConfigView::Default { rpc_url },
    }
}

/// The channel of one provider entry (always some channel).
pub fn create_swqos_config(
    provider_name: &str,
    api_token: String,
    region: &SwqosRegion,
    rpc_url: &str,
) -> (r: Option<SwqosConfig>)
    ensures
        r matches Some(c) && c@ == config_for(provider_name@, api_token@, *region, rpc_url@),
{
    match provider_named(provider_name) {
        Some(p) => Some(SwqosConfig::Service { provider: p, token: api_token, region: *region }),
        None => Some(SwqosConfig::Default { rpc_url: String::from_str(rpc_url) }),
    }
}

/// The environment variable that may hold a provider's API token.
pub open spec fn token_var_of(name: Seq<char>) -> Option<Seq<char>> {
    if name == "Astralane"@ {
        Some("SWQOS_ASTRALANE_TOKEN"@)
    } else if name == "BlockRazor"@ {
        Some("SWQOS_BLOCKRAZOR_TOKEN"@)
    } else if name == "Jito"@ {
        Some("SWQOS_JITO_TOKEN"@)
    } else if name == "NextBlock"@ {
        Some("SWQOS_NEXTBLOCK_TOKEN"@)
    } else if name == "Bloxroute"@ {
        Some("SWQOS_BLOXROUTE_TOKEN"@)
    } else if name == "ZeroSlot"@ {
        Some("SWQOS_ZEROSLOT_TOKEN"@)
    } else if name == "Temporal"@ {
        Some("SWQOS_TEMPORAL_TOKEN"@)
    } else if name == "FlashBlock"@ {
        Some("SWQOS_FLASHBLOCK_TOKEN"@)
    } else if name == "Node1"@ {
        Some("SWQOS_NODE1_TOKEN"@)
    } else if name == "Stellium"@ {
        Some("SWQOS_STELLIUM_TOKEN"@)
    } else if name == "Speedlanding"@ {
        Some("SWQOS_SPEEDLANDING_TOKEN"@)
    } else if name == "Soyas"@ {
        Some("SWQOS_SOYAS_TOKEN"@)
    } else {
        None
    }
}

/// The name of the environment variable that may hold the API token of provider `name`.
pub fn provider_token_var(name: &str) -> (r: Option<&'static str>)
    ensures
        opt_str(r) == token_var_of(name@),
{
    if str_eq_lit(name, "Astralane") {
        Some("SWQOS_ASTRALANE_TOKEN")
    } else if str_eq_lit(name, "BlockRazor") {
        Some("SWQOS_BLOCKRAZOR_TOKEN")
    } else if str_eq_lit(name, "Jito") {
        Some("SWQOS_JITO_TOKEN")
    } else if str_eq_lit(name, "NextBlock") {
        Some("SWQOS_NEXTBLOCK_TOKEN")
    } else if str_eq_lit(name, "Bloxroute") {
        Some("SWQOS_BLOXROUTE_TOKEN")
    } else if str_eq_lit(name, "ZeroSlot") {
        Some("SWQOS_ZEROSLOT_TOKEN")
    } else if str_eq_lit(name, "Temporal") {
        Some("SWQOS_TEMPORAL_TOKEN")
    } else if str_eq_lit(name, "FlashBlock") {
        Some("SWQOS_FLASHBLOCK_TOKEN")
    } else if str_eq_lit(name, "Node1") {
        Some("SWQOS_NODE1_TOKEN")
    } else if str_eq_lit(name, "Stellium") {
        Some("SWQOS_STELLIUM_TOKEN")
    } else if str_eq_lit(name, "Speedlanding") {
        Some("SWQOS_SPEEDLANDING_TOKEN")
    } else if str_eq_lit(name, "Soyas") {
        Some("SWQOS_SOYAS_TOKEN")
    } else {
        None
    }
}

/// The token a provider uses: the environment's, when it is not blank (taken as is), else
/// the one from the file, else empty.
pub open spec fn chosen_token(env_token: Option<Seq<char>>, file_token: Option<Seq<char>>) -> Seq<char> {
    match env_token {
        Some(v) if trim_seq(v).len() > 0 => v,
        _ => match file_token {
            Some(f) => f,
            None => Seq::empty(),
        },
    }
}

fn choose_token(env_token: &Option<String>, file_token: &Option<String>) -> (r: String)
    ensures
        r@ == chosen_token(opt_string(*env_token), opt_string(*file_token)),
{
    match env_token {
        Some(v) => {
            let t = trim(v.as_str());
            if !t.as_str().is_empty() {
                return v.clone();
            }
        },
        None => {},
    }
    match file_token {
        Some(f) => f.clone(),
        None => String::new(),
    }
}

/// The channels of the first `n` provider entries: one per enabled entry, in order.
pub open spec fn channels_of(
    providers: Seq<SwqosProviderConfig>,
    env_tokens: Seq<Option<String>>,
    region: SwqosRegion,
    rpc_url: Seq<char>,
    n: nat,
) -> Seq<SwqosConfigView>
    decreases n,
{
    if n == 0 {
        Seq::empty()
    } else {
        let p = providers[n - 1];
        let before = channels_of(providers, env_tokens, region, rpc_url, (n - 1) as nat);
        if p.enabled {
            before.push(
                config_for(
                    p.provider@,
                    chosen_token(opt_string(env_tokens[n - 1]), opt_string(p.api_token)),
                    region,
                    rpc_url,
                ),
            )
        } else {
            before
        }
    }
}

/// The channels a configuration yields: one per enabled provider, or plain RPC submission
/// when none is enabled. The region comes from the override when one is set, else from the
/// file.
pub open spec fn spec_swqos_configs(
    cfg: SolanaConfig,
    region_override: Option<Seq<char>>,
    env_tokens: Seq<Option<String>>,
) -> Seq<SwqosConfigView> {
    let region = region_of(
        match region_override {
            Some(r) => r,
            None => cfg.swqos.region@,
        },
    );
    let chans = channels_of(
        cfg.swqos.enabled_providers@,
        env_tokens,
        region,
        cfg.rpc_url@,
        cfg.swqos.enabled_providers@.len(),
    );
    if chans.len() == 0 {
        seq![SwqosConfigView::Default { rpc_url: cfg.rpc_url@ }]
    } else {
        chans
    }
}

/// Builds the submission channels. `region_override` is the raw `SWQOS_REGION` setting;
/// `env_tokens[i]` is the raw value of the token variable (see `provider_token_var`) of
/// the i-th provider entry, if set.
pub fn build_swqos_configs(
    cfg: &SolanaConfig,
    region_override: Option<&str>,
    env_tokens: &Vec<Option<String>>,
) -> (r: Vec<SwqosConfig>)
    requires
        env_tokens@.len() == cfg.swqos.enabled_providers@.len(),
    ensures
        r@.map_values(|c: SwqosConfig| c@) == spec_swqos_configs(*cfg, opt_str(region_override), env_tokens@),
        r@.len() >= 1,
{
    let region = match region_override {
        Some(r) => parse_region(r),
        None => parse_region(cfg.swqos.region.as_str()),
    };
    let providers = &cfg.swqos.enabled_providers;
    let n = providers.len();
    let mut out: Vec<SwqosConfig> = Vec::new();
    let mut i: usize = 0;
    while i < n
        invariant
            i <= n == providers@.len() == env_tokens@.len(),
            providers == &cfg.swqos.enabled_providers,
            out@.map_values(|c: SwqosConfig| c@) == channels_of(
                providers@,
                env_tokens@,
                region,
                cfg.rpc_url@,
                i as nat,
            ),
        decreases n - i,
    {
        let p = &providers[i];
        if p.enabled {
            let token = choose_token(&env_tokens[i], &p.api_token);
            let c = create_swqos_config(p.provider.as_str(), token, &region, cfg.rpc_url.as_str());
            match c {
                Some(c) => {
                    let ghost before = out@;
                    out.push(c);
                    proof {
                        assert(out@.map_values(|c: SwqosConfig| c@) =~= before.map_values(
                            |c: SwqosConfig| c@,
                        ).push(c@));
                    }
                },
                None => {},
            }
        }
        i = i + 1;
    }
    if out.len() == 0 {
        out.push(SwqosConfig::Default { rpc_url: cfg.rpc_url.clone() });
        proof {
            assert(out@.map_values(|c: SwqosConfig| c@) =~= seq![
                SwqosConfigView::Default { rpc_url: cfg.rpc_url@ },
            ]);
        }
    }
    out
}

/// Law: a provider token set in the environment (not blank) takes precedence over the one in
/// the file; a blank or missing one falls back to the file's.
pub proof fn law_env_token_precedence(env_token: Option<Seq<char>>, file_token: Option<Seq<char>>)
    ensures
        env_token matches Some(v) && trim_seq(v).len() > 0 ==> chosen_token(env_token, file_token)
            == env_token->0,
        !(env_token matches Some(v) && trim_seq(v).len() > 0) ==> chosen_token(env_token, file_token)
            == match file_token {
            Some(f) => f,
            None => Seq::<char>::empty(),
        },
{
}

/// Law: every configuration yields at least one channel, and without an enabled provider
/// exactly the plain RPC channel.
pub proof fn law_at_least_one_channel(
    cfg: SolanaConfig,
    region_override: Option<Seq<char>>,
    env_tokens: Seq<Option<String>>,
)
    ensures
        spec_swqos_configs(cfg, region_override, env_tokens).len() >= 1,
        (forall|i: int| 0 <= i < cfg.swqos.enabled_providers@.len() ==> !(#[trigger] cfg.swqos.enabled_providers@[i]).enabled)
            ==> spec_swqos_configs(cfg, region_override, env_tokens) == seq![
            SwqosConfigView::Default { rpc_url: cfg.rpc_url@ },
        ],
{
    let ps = cfg.swqos.enabled_providers@;
    if forall|i: int| 0 <= i < ps.len() ==> !(#[trigger] ps[i]).enabled {
        lemma_no_enabled_no_channels(ps, env_tokens, region_of(match region_override {
            Some(r) => r,
            None => cfg.swqos.region@,
        }), cfg.rpc_url@, ps.len());
    }
}

proof fn lemma_no_enabled_no_channels(
    ps: Seq<SwqosProviderConfig>,
    env_tokens: Seq<Option<String>>,
    region: SwqosRegion,
    rpc_url: Seq<char>,
    n: nat,
)
    requires
        n <= ps.len(),
        forall|i: int| 0 <= i < ps.len() ==> !(#[trigger] ps[i]).enabled,
    ensures
        channels_of(ps, env_tokens, region, rpc_url, n).len() == 0,
    decreases n,
{
    if n > 0 {
        assert(!ps[n - 1].enabled);
        lemma_no_enabled_no_channels(ps, env_tokens, region, rpc_url, (n - 1) as nat);
    }
}

/// The name each service goes by in `solana.yaml`: the name of the service itself.
pub open spec fn provider_name(p: SwqosProvider) -> Seq<char> {
    match p {
        SwqosProvider::Jito => "Jito"@,
        SwqosProvider::NextBlock => "NextBlock"@,
        SwqosProvider::Bloxroute => "Bloxroute"@,
        SwqosProvider::ZeroSlot => "ZeroSlot"@,
        SwqosProvider::Temporal => "Temporal"@,
        SwqosProvider::FlashBlock => "FlashBlock"@,
        SwqosProvider::Node1 => "Node1"@,
        SwqosProvider::BlockRazor => "BlockRazor"@,
        SwqosProvider::Astralane => "Astralane"@,
        SwqosProvider::Stellium => "Stellium"@,
        SwqosProvider::Lightspeed => "Lightspeed"@,
        SwqosProvider::Soyas => "Soyas"@,
        SwqosProvider::Speedlanding => "Speedlanding"@,
    }
}

/// Law: a provider name stands for the service of that very name and no other: the name of
/// each service stands for it, a name stands for a service only when it is that service's
/// name, and so distinct names never stand for the same service.
pub proof fn law_provider_names_are_exact(name: Seq<char>, other: Seq<char>, p: SwqosProvider)
    ensures
        provider_of(provider_name(p)) == Some(p),
        provider_of(name) == Some(p) ==> name == provider_name(p),
        provider_of(name) == Some(p) && provider_of(other) == Some(p) ==> name == other,
        provider_of(name) is None ==> config_for(name, Seq::empty(), SwqosRegion::NewYork, Seq::empty())
            is Default,
{
    reveal_strlit("Jito");
    assert("Jito"@.len() == 4 && "Jito"@[0] == 'J');
    reveal_strlit("NextBlock");
    assert("NextBlock"@.len() == 9 && "NextBlock"@[0] == 'N');
    reveal_strlit("Bloxroute");
    assert("Bloxroute"@.len() == 9 && "Bloxroute"@[0] == 'B');
    reveal_strlit("ZeroSlot");
    assert("ZeroSlot"@.len() == 8 && "ZeroSlot"@[0] == 'Z');
    reveal_strlit("Temporal");
    assert("Temporal"@.len() == 8 && "Temporal"@[0] == 'T');
    reveal_strlit("FlashBlock");
    assert("FlashBlock"@.len() == 10 && "FlashBlock"@[0] == 'F');
    reveal_strlit("Node1");
    assert("Node1"@.len() == 5 && "Node1"@[0] == 'N');
    reveal_strlit("BlockRazor");
    assert("BlockRazor"@.len() == 10 && "BlockRazor"@[0] == 'B');
    reveal_strlit("Astralane");
    assert("Astralane"@.len() == 9 && "Astralane"@[0] == 'A');
    reveal_strlit("Stellium");
    assert("Stellium"@.len() == 8 && "Stellium"@[0] == 'S');
    reveal_strlit("Lightspeed");
    assert("Lightspeed"@.len() == 10 && "Lightspeed"@[0] == 'L');
    reveal_strlit("Soyas");
    assert("Soyas"@.len() == 5 && "Soyas"@[0] == 'S');
    reveal_strlit("Speedlanding");
    assert("Speedlanding"@.len() == 12 && "Speedlanding"@[0] == 'S');
}

/// The name each region goes by in `solana.yaml` and `SWQOS_REGION`.
pub open spec fn region_name(r: SwqosRegion) -> Seq<char> {
    match r {
        SwqosRegion::NewYork => "NewYork"@,
        SwqosRegion::Frankfurt => "Frankfurt"@,
        SwqosRegion::Amsterdam => "Amsterdam"@,
        SwqosRegion::SLC => "SLC"@,
        SwqosRegion::Tokyo => "Tokyo"@,
        SwqosRegion::London => "London"@,
        SwqosRegion::LosAngeles => "LosAngeles"@,
    }
}

/// Law: a region name stands for the region of that very name, and any other text for New
/// York: the name of each region gives it back, and a region other than New York is only
/// ever read from its own name.
pub proof fn law_region_names_are_exact(name: Seq<char>, r: SwqosRegion)
    ensures
        region_of(region_name(r)) == r,
        region_of(name) == r && r != SwqosRegion::NewYork ==> name == region_name(r),
{
    reveal_strlit("NewYork");
    assert("NewYork"@.len() == 7 && "NewYork"@[0] == 'N' && "NewYork"@[1] == 'e');
    reveal_strlit("Frankfurt");
    assert("Frankfurt"@.len() == 9 && "Frankfurt"@[0] == 'F' && "Frankfurt"@[1] == 'r');
    reveal_strlit("Amsterdam");
    assert("Amsterdam"@.len() == 9 && "Amsterdam"@[0] == 'A' && "Amsterdam"@[1] == 'm');
    reveal_strlit("SLC");
    assert("SLC"@.len() == 3 && "SLC"@[0] == 'S' && "SLC"@[1] == 'L');
    reveal_strlit("Tokyo");
    assert("Tokyo"@.len() == 5 && "Tokyo"@[0] == 'T' && "Tokyo"@[1] == 'o');
    reveal_strlit("London");
    assert("London"@.len() == 6 && "London"@[0] == 'L' && "London"@[1] == 'o');
    reveal_strlit("LosAngeles");
    assert("LosAngeles"@.len() == 10 && "LosAngeles"@[0] == 'L' && "LosAngeles"@[1] == 'o');
}

/// Law: the environment variable that may hold a provider's token is `SWQOS_`, the
/// provider's name in upper case, then `_TOKEN`; only names of token services have one.
pub proof fn law_token_var_is_named_after_provider(name: Seq<char>)
    ensures
        token_var_of(name) matches Some(v) ==> provider_of(name) is Some && v == "SWQOS_"@ + upper_seq(name)
            + "_TOKEN"@,
{
    reveal_strlit("SWQOS_");
    reveal_strlit("_TOKEN");
    if name == "Astralane"@ {
        reveal_strlit("Astralane");
        reveal_strlit("SWQOS_ASTRALANE_TOKEN");
        assert(upper_seq("Astralane"@) =~= seq!['A', 'S', 'T', 'R', 'A', 'L', 'A', 'N', 'E']);
        assert("SWQOS_ASTRALANE_TOKEN"@ =~= "SWQOS_"@ + upper_seq(name) + "_TOKEN"@);
    }
    if name == "BlockRazor"@ {
        reveal_strlit("BlockRazor");
        reveal_strlit("SWQOS_BLOCKRAZOR_TOKEN");
        assert(upper_seq("BlockRazor"@) =~= seq!['B', 'L', 'O', 'C', 'K', 'R', 'A', 'Z', 'O', 'R']);
        assert("SWQOS_BLOCKRAZOR_TOKEN"@ =~= "SWQOS_"@ + upper_seq(name) + "_TOKEN"@);
    }
    if name == "Jito"@ {
        reveal_strlit("Jito");
        reveal_strlit("SWQOS_JITO_TOKEN");
        assert(upper_seq("Jito"@) =~= seq!['J', 'I', 'T', 'O']);
        assert("SWQOS_JITO_TOKEN"@ =~= "SWQOS_"@ + upper_seq(name) + "_TOKEN"@);
    }
    if name == "NextBlock"@ {
        reveal_strlit("NextBlock");
        reveal_strlit("SWQOS_NEXTBLOCK_TOKEN");
        assert(upper_seq("NextBlock"@) =~= seq!['N', 'E', 'X', 'T', 'B', 'L', 'O', 'C', 'K']);
        assert("SWQOS_NEXTBLOCK_TOKEN"@ =~= "SWQOS_"@ + upper_seq(name) + "_TOKEN"@);
    }
    if name == "Bloxroute"@ {
        reveal_strlit("Bloxroute");
        reveal_strlit("SWQOS_BLOXROUTE_TOKEN");
        assert(upper_seq("Bloxroute"@) =~= seq!['B', 'L', 'O', 'X', 'R', 'O', 'U', 'T', 'E']);
        assert("SWQOS_BLOXROUTE_TOKEN"@ =~= "SWQOS_"@ + upper_seq(name) + "_TOKEN"@);
    }
    if name == "ZeroSlot"@ {
        reveal_strlit("ZeroSlot");
        reveal_strlit("SWQOS_ZEROSLOT_TOKEN");
        assert(upper_seq("ZeroSlot"@) =~= seq!['Z', 'E', 'R', 'O', 'S', 'L', 'O', 'T']);
        assert("SWQOS_ZEROSLOT_TOKEN"@ =~= "SWQOS_"@ + upper_seq(name) + "_TOKEN"@);
    }
    if name == "Temporal"@ {
        reveal_strlit("Temporal");
        reveal_strlit("SWQOS_TEMPORAL_TOKEN");
        assert(upper_seq("Temporal"@) =~= seq!['T', 'E', 'M', 'P', 'O', 'R', 'A', 'L']);
        assert("SWQOS_TEMPORAL_TOKEN"@ =~= "SWQOS_"@ + upper_seq(name) + "_TOKEN"@);
    }
    if name == "FlashBlock"@ {
        reveal_strlit("FlashBlock");
        reveal_strlit("SWQOS_FLASHBLOCK_TOKEN");
        assert(upper_seq("FlashBlock"@) =~= seq!['F', 'L', 'A', 'S', 'H', 'B', 'L', 'O', 'C', 'K']);
        assert("SWQOS_FLASHBLOCK_TOKEN"@ =~= "SWQOS_"@ + upper_seq(name) + "_TOKEN"@);
    }
    if name == "Node1"@ {
        reveal_strlit("Node1");
        reveal_strlit("SWQOS_NODE1_TOKEN");
        assert(upper_seq("Node1"@) =~= seq!['N', 'O', 'D', 'E', '1']);
        assert("SWQOS_NODE1_TOKEN"@ =~= "SWQOS_"@ + upper_seq(name) + "_TOKEN"@);
    }
    if name == "Stellium"@ {
        reveal_strlit("Stellium");
        reveal_strlit("SWQOS_STELLIUM_TOKEN");
        assert(upper_seq("Stellium"@) =~= seq!['S', 'T', 'E', 'L', 'L', 'I', 'U', 'M']);
        assert("SWQOS_STELLIUM_TOKEN"@ =~= "SWQOS_"@ + upper_seq(name) + "_TOKEN"@);
    }
    if name == "Speedlanding"@ {
        reveal_strlit("Speedlanding");
        reveal_strlit("SWQOS_SPEEDLANDING_TOKEN");
        assert(upper_seq("Speedlanding"@) =~= seq!['S', 'P', 'E', 'E', 'D', 'L', 'A', 'N', 'D', 'I', 'N', 'G']);
        assert("SWQOS_SPEEDLANDING_TOKEN"@ =~= "SWQOS_"@ + upper_seq(name) + "_TOKEN"@);
    }
    if name == "Soyas"@ {
        reveal_strlit("Soyas");
        reveal_strlit("SWQOS_SOYAS_TOKEN");
        assert(upper_seq("Soyas"@) =~= seq!['S', 'O', 'Y', 'A', 'S']);
        assert("SWQOS_SOYAS_TOKEN"@ =~= "SWQOS_"@ + upper_seq(name) + "_TOKEN"@);
    }
}

} // verus!
