//! Recently created mints, remembered from create events so that later trade events of the
//! same mint (which a shred stream delivers without account context) can be completed.
use vstd::prelude::*;
use crate::address::{Address, zero_address};
use crate::events::{CreateEvent, CreateV2Event, DexEvent, TradeEvent, matches_filter};
use crate::freshness::spec_event_fresh;
use crate::events::select_streamed_trade;

verus! {

/// How long a created mint is remembered, in nanoseconds (one minute).
pub const CREATED_MINT_TTL_NS: u64 = 60_000_000_000;

/// What a create event tells about a mint.
#[derive(Debug, Clone, Copy)]
pub struct CreatedMintContext {
    pub creator: Address,
    pub bonding_curve: Address,
    /// The bonding curve's token account, when the create event named it.
    pub associated_bonding_curve: Option<Address>,
    pub token_program: Address,
    pub is_mayhem_mode: bool,
    pub is_cashback_coin: bool,
    /// When the create event was seen, in nanoseconds.
    pub observed_at_ns: u64,
}

/// Whether a context seen at `ctx.observed_at_ns` is still kept at `now_ns`: less than the
/// time to live has passed (a time before the observation counts as no time).
pub open spec fn is_recent(ctx: CreatedMintContext, now_ns: u64) -> bool {
    now_ns < ctx.observed_at_ns || now_ns - ctx.observed_at_ns < CREATED_MINT_TTL_NS
}

/// The map that a list of entries with distinct keys stands for.
pub open spec fn entries_map(s: Seq<(Address, CreatedMintContext)>) -> Map<
    Seq<u8>,
    CreatedMintContext,
>
    decreases s.len(),
{
    if s.len() == 0 {
        Map::empty()
    } else {
        entries_map(s.drop_last()).insert(s.last().0@, s.last().1)
    }
}

/// No key occurs twice.
pub open spec fn distinct_keys(s: Seq<(Address, CreatedMintContext)>) -> bool {
    forall|i: int, j: int| 0 <= i < j < s.len() ==> (#[trigger] s[i]).0@ != (#[trigger] s[j]).0@
}

/// `m` restricted to the contexts still recent at `now_ns`.
pub open spec fn recent_only(m: Map<Seq<u8>, CreatedMintContext>, now_ns: u64) -> Map<
    Seq<u8>,
    CreatedMintContext,
> {
    Map::new(|k: Seq<u8>| m.dom().contains(k) && is_recent(m[k], now_ns), |k: Seq<u8>| m[k])
}

proof fn lemma_entries_map_finite_keys(s: Seq<(Address, CreatedMintContext)>, k: Seq<u8>)
    ensures
        entries_map(s).dom().contains(k) <==> exists|i: int| 0 <= i < s.len() && (#[trigger] s[i]).0@ == k,
    decreases s.len(),
{
    if s.len() > 0 {
        lemma_entries_map_finite_keys(s.drop_last(), k);
        if entries_map(s).dom().contains(k) && s.last().0@ != k {
            let i = choose|i: int| 0 <= i < s.drop_last().len() && (#[trigger] s.drop_last()[i]).0@ == k;
            assert(s[i] == s.drop_last()[i]);
        }
        if exists|i: int| 0 <= i < s.len() && (#[trigger] s[i]).0@ == k {
            let i = choose|i: int| 0 <= i < s.len() && (#[trigger] s[i]).0@ == k;
            if i < s.len() - 1 {
                assert(s.drop_last()[i] == s[i]);
            }
        }
    }
}

proof fn lemma_entries_map_at(s: Seq<(Address, CreatedMintContext)>, i: int)
    requires
        distinct_keys(s),
        0 <= i < s.len(),
    ensures
        entries_map(s).dom().contains(s[i].0@),
        entries_map(s)[s[i].0@] == s[i].1,
    decreases s.len(),
{
    if i < s.len() - 1 {
        assert(s.drop_last()[i] == s[i]);
        assert(distinct_keys(s.drop_last()));
        lemma_entries_map_at(s.drop_last(), i);
        assert(s[i].0@ != s[s.len() - 1].0@);
    }
}

proof fn lemma_entries_map_update(
    s: Seq<(Address, CreatedMintContext)>,
    i: int,
    k: Address,
    v: CreatedMintContext,
)
    requires
        distinct_keys(s),
        0 <= i < s.len(),
        s[i].0@ == k@,
    ensures
        entries_map(s.update(i, (k, v))) =~= entries_map(s).insert(k@, v),
        distinct_keys(s.update(i, (k, v))),
    decreases s.len(),
{
    let t = s.update(i, (k, v));
    assert(t.drop_last().len() == s.drop_last().len());
    if i == s.len() - 1 {
        assert(t.drop_last() =~= s.drop_last());
    } else {
        assert(t.drop_last() =~= s.drop_last().update(i, (k, v)));
        assert(distinct_keys(s.drop_last()));
        lemma_entries_map_update(s.drop_last(), i, k, v);
        assert(s[s.len() - 1].0@ != s[i].0@);
    }
    assert forall|a: int, b: int| 0 <= a < b < t.len() implies (#[trigger] t[a]).0@ != (
    #[trigger] t[b]).0@ by {
        assert(s[a].0@ != s[b].0@);
    }
}

/// The mints created recently, each with the context of its create event: a map from mint
/// address to context. It is held as a list of entries whose keys are distinct (the type's
/// invariant), not as a `HashMap`: a mint address is 32 bytes, and vstd specifies
/// `HashMap` only for keys of `bool` or primitive integer types, none of which holds an
/// address.
pub struct CreatedMints {
    entries: Vec<(Address, CreatedMintContext)>,
}

impl View for CreatedMints {
    type V = Map<Seq<u8>, CreatedMintContext>;

    closed spec fn view(&self) -> Map<Seq<u8>, CreatedMintContext> {
        entries_map(self.entries@)
    }
}

impl CreatedMints {
    #[verifier::type_invariant]
    closed spec fn keys_distinct(&self) -> bool {
        distinct_keys(self.entries@)
    }

    /// An empty table.
    pub fn new() -> (t: CreatedMints)
        ensures
            t@ == Map::<Seq<u8>, CreatedMintContext>::empty(),
    {
        CreatedMints { entries: Vec::new() }
    }

    /// Number of mints remembered.
    pub fn len(&self) -> (n: usize)
        ensures
            n == self@.dom().len(),
    {
        proof {
            use_type_invariant(self);
            lemma_len(self.entries@);
        }
        self.entries.len()
    }

    fn index_of(&self, mint: &Address) -> (r: Option<usize>)
        ensures
            r matches Some(i) ==> i < self.entries@.len() && self.entries@[i as int].0@ == mint@,
            r is None ==> !self@.dom().contains(mint@),
    {
        let n = self.entries.len();
        let mut i: usize = 0;
        while i < n
            invariant
                i <= n == self.entries@.len(),
                forall|j: int| 0 <= j < i ==> (#[trigger] self.entries@[j]).0@ != mint@,
            decreases n - i,
        {
            if self.entries[i].0.same(mint) {
                return Some(i);
            }
            i = i + 1;
        }
        proof {
            lemma_entries_map_finite_keys(self.entries@, mint@);
        }
        None
    }

    /// The context remembered for `mint`.
    pub fn get(&self, mint: &Address) -> (r: Option<CreatedMintContext>)
        ensures
            r == (if self@.dom().contains(mint@) {
                Some(self@[mint@])
            } else {
                None
            }),
    {
        proof {
            use_type_invariant(self);
        }
        match self.index_of(mint) {
            Some(i) => {
                proof {
                    lemma_entries_map_at(self.entries@, i as int);
                }
                Some(self.entries[i].1)
            },
            None => None,
        }
    }

    /// Forgets every mint whose create event is no longer recent at `now_ns`.
    pub fn prune(&mut self, now_ns: u64)
        ensures
            final(self)@ == recent_only(old(self)@, now_ns),
    {
        proof {
            use_type_invariant(&*self);
        }
        let ghost s = self.entries@;
        let mut entries: Vec<(Address, CreatedMintContext)> = Vec::new();
        std::mem::swap(&mut entries, &mut self.entries);
        let mut kept: Vec<(Address, CreatedMintContext)> = Vec::new();
        let n = entries.len();
        let mut i: usize = 0;
        assert(s.take(0) =~= Seq::<(Address, CreatedMintContext)>::empty());
        assert(entries_map(kept@) =~= recent_only(entries_map(s.take(0)), now_ns));
        while i < n
            invariant
                entries@ == s,
                distinct_keys(s),
                i <= n == s.len(),
                distinct_keys(kept@),
                entries_map(kept@) =~= recent_only(entries_map(s.take(i as int)), now_ns),
                forall|j: int|
                    0 <= j < kept@.len() ==> exists|k: int|
                        0 <= k < i && (#[trigger] kept@[j]).0@ == (#[trigger] s[k]).0@,
            decreases n - i,
        {
            let (mint, ctx) = entries[i];
            let ghost m = entries_map(s.take(i as int));
            proof {
                assert(s.take(i + 1).drop_last() =~= s.take(i as int));
                assert(s.take(i + 1).last() == s[i as int]);
                lemma_entries_map_finite_keys(s.take(i as int), mint@);
                if m.dom().contains(mint@) {
                    let k = choose|k: int| 0 <= k < s.take(i as int).len() && (#[trigger] s.take(i as int)[k]).0@ == mint@;
                    assert(s.take(i as int)[k] == s[k]);
                    assert(s[k].0@ != s[i as int].0@);
                }
            }
            let recent = now_ns < ctx.observed_at_ns || now_ns - ctx.observed_at_ns < CREATED_MINT_TTL_NS;
            if recent {
                let ghost old_kept = kept@;
                kept.push((mint, ctx));
                proof {
                    assert(kept@.drop_last() =~= old_kept);
                    assert(entries_map(kept@) =~= recent_only(entries_map(s.take(i + 1)), now_ns));
                    assert forall|a: int, b: int| 0 <= a < b < kept@.len() implies (
                    #[trigger] kept@[a]).0@ != (#[trigger] kept@[b]).0@ by {
                        if b == old_kept.len() {
                            assert(kept@[a] == old_kept[a]);
                            let k = choose|k: int| 0 <= k < i && (#[trigger] old_kept[a]).0@ == (#[trigger] s[k]).0@;
                            assert(s[k].0@ != s[i as int].0@);
                        } else {
                            assert(old_kept[a].0@ != old_kept[b].0@);
                        }
                    }
                    assert forall|j: int| 0 <= j < kept@.len() implies exists|k: int|
                        0 <= k < i + 1 && (#[trigger] kept@[j]).0@ == (#[trigger] s[k]).0@ by {
                        if j < old_kept.len() {
                            assert(kept@[j] == old_kept[j]);
                            let k = choose|k: int| 0 <= k < i && (#[trigger] old_kept[j]).0@ == (#[trigger] s[k]).0@;
                            assert(kept@[j].0@ == s[k].0@);
                        } else {
                            assert(kept@[j].0@ == s[i as int].0@);
                        }
                    }
                }
            } else {
                proof {
                    assert(entries_map(kept@) =~= recent_only(entries_map(s.take(i + 1)), now_ns));
                }
            }
            i = i + 1;
        }
        assert(s.take(n as int) =~= s);
        self.entries = kept;
    }

    /// Remembers `ctx` for `mint`, replacing what was remembered for it before.
    pub fn remember(&mut self, mint: Address, ctx: CreatedMintContext)
        ensures
            final(self)@ == old(self)@.insert(mint@, ctx),
    {
        proof {
            use_type_invariant(&*self);
        }
        let found = self.index_of(&mint);
        let ghost s = self.entries@;
        let mut entries: Vec<(Address, CreatedMintContext)> = Vec::new();
        std::mem::swap(&mut entries, &mut self.entries);
        match found {
            Some(i) => {
                proof {
                    lemma_entries_map_update(s, i as int, mint, ctx);
                }
                entries.set(i, (mint, ctx));
            },
            None => {
                proof {
                    lemma_entries_map_finite_keys(s, mint@);
                    let t = s.push((mint, ctx));
                    assert(t.drop_last() =~= s);
                    assert forall|a: int, b: int| 0 <= a < b < t.len() implies (#[trigger] t[a]).0@
                        != (#[trigger] t[b]).0@ by {
                        if b == s.len() {
                            assert(t[a] == s[a]);
                        } else {
                            assert(s[a].0@ != s[b].0@);
                        }
                    }
                }
                entries.push((mint, ctx));
            },
        }
        self.entries = entries;
    }
}

proof fn lemma_len(s: Seq<(Address, CreatedMintContext)>)
    requires
        distinct_keys(s),
    ensures
        entries_map(s).dom().finite(),
        entries_map(s).dom().len() == s.len(),
    decreases s.len(),
{
    if s.len() > 0 {
        assert(distinct_keys(s.drop_last()));
        lemma_len(s.drop_last());
        lemma_entries_map_finite_keys(s.drop_last(), s.last().0@);
        if entries_map(s.drop_last()).dom().contains(s.last().0@) {
            let i = choose|i: int| 0 <= i < s.drop_last().len() && (#[trigger] s.drop_last()[i]).0@ == s.last().0@;
            assert(s[i] == s.drop_last()[i]);
            assert(s[i].0@ != s[s.len() - 1].0@);
        }
    }
}

} // verus!

verus! {

/// What a create event tells about its mint, seen at `now_ns`.
pub open spec fn context_of_create(e: CreateEvent, now_ns: u64) -> CreatedMintContext {
    CreatedMintContext {
        creator: e.creator,
        bonding_curve: e.bonding_curve,
        associated_bonding_curve: None,
        token_program: e.token_program,
        is_mayhem_mode: e.is_mayhem_mode,
        is_cashback_coin: e.is_cashback_enabled,
        observed_at_ns: now_ns,
    }
}

/// What a create-v2 event tells about its mint, seen at `now_ns`.
pub open spec fn context_of_create_v2(e: CreateV2Event, now_ns: u64) -> CreatedMintContext {
    CreatedMintContext {
        creator: e.creator,
        bonding_curve: e.bonding_curve,
        associated_bonding_curve: Some(e.associated_bonding_curve),
        token_program: e.token_program,
        is_mayhem_mode: e.is_mayhem_mode,
        is_cashback_coin: e.is_cashback_enabled,
        observed_at_ns: now_ns,
    }
}

/// Remembers the mint of a create event.
pub fn remember_create(table: &mut CreatedMints, event: &CreateEvent, now_ns: u64)
    ensures
        final(table)@ == old(table)@.insert(event.mint@, context_of_create(*event, now_ns)),
{
    table.remember(
        event.mint,
        CreatedMintContext {
            creator: event.creator,
            bonding_curve: event.bonding_curve,
            associated_bonding_curve: None,
            token_program: event.token_program,
            is_mayhem_mode: event.is_mayhem_mode,
            is_cashback_coin: event.is_cashback_enabled,
            observed_at_ns: now_ns,
        },
    );
}

/// Remembers the mint of a create-v2 event.
pub fn remember_create_v2(table: &mut CreatedMints, event: &CreateV2Event, now_ns: u64)
    ensures
        final(table)@ == old(table)@.insert(event.mint@, context_of_create_v2(*event, now_ns)),
{
    table.remember(
        event.mint,
        CreatedMintContext {
            creator: event.creator,
            bonding_curve: event.bonding_curve,
            associated_bonding_curve: Some(event.associated_bonding_curve),
            token_program: event.token_program,
            is_mayhem_mode: event.is_mayhem_mode,
            is_cashback_coin: event.is_cashback_enabled,
            observed_at_ns: now_ns,
        },
    );
}

/// Forgets the mints whose create event is older than the time to live.
pub fn prune_created_mints(table: &mut CreatedMints, now_ns: u64)
    ensures
        final(table)@ == recent_only(old(table)@, now_ns),
{
    table.prune(now_ns);
}

/// Whether completing `e` from `ctx` needs the bonding curve's token account derived: the
/// event lacks it and the create event did not name it.
pub open spec fn needs_derived_curve_account(e: TradeEvent, ctx: CreatedMintContext) -> bool {
    e.associated_bonding_curve@ == zero_address() && ctx.associated_bonding_curve is None
}

/// `e` completed from the create context: each missing account is taken from the context
/// (the curve's token account from the context, or else the `derived` one), and the mayhem
/// and cashback flags are set when either side sets them.
pub open spec fn spec_enrich(e: TradeEvent, ctx: CreatedMintContext, derived: Address) -> TradeEvent {
    TradeEvent {
        creator: if e.creator@ == zero_address() {
            ctx.creator
        } else {
            e.creator
        },
        bonding_curve: if e.bonding_curve@ == zero_address() {
            ctx.bonding_curve
        } else {
            e.bonding_curve
        },
        token_program: if e.token_program@ == zero_address() {
            ctx.token_program
        } else {
            e.token_program
        },
        associated_bonding_curve: if e.associated_bonding_curve@ == zero_address() {
            match ctx.associated_bonding_curve {
                Some(a) => a,
                None => derived,
            }
        } else {
            e.associated_bonding_curve
        },
        mayhem_mode: e.mayhem_mode || ctx.is_mayhem_mode,
        is_cashback_coin: e.is_cashback_coin || ctx.is_cashback_coin,
        ..e
    }
}

/// Completes a trade event from the context of its mint's create event. `derived` is the
/// associated token account of the context's bonding curve for the event's mint under the
/// context's token program; it is used only when neither side names that account.
pub fn enrich_trade_from_create(event: &mut TradeEvent, ctx: &CreatedMintContext, derived: Address)
    ensures
        *final(event) == spec_enrich(*old(event), *ctx, derived),
{
    if event.creator.is_zero() {
        event.creator = ctx.creator;
    }
    if event.bonding_curve.is_zero() {
        event.bonding_curve = ctx.bonding_curve;
    }
    if event.token_program.is_zero() {
        event.token_program = ctx.token_program;
    }
    if event.associated_bonding_curve.is_zero() {
        event.associated_bonding_curve = match ctx.associated_bonding_curve {
            Some(a) => a,
            None => derived,
        };
    }
    event.mayhem_mode = event.mayhem_mode || ctx.is_mayhem_mode;
    event.is_cashback_coin = event.is_cashback_coin || ctx.is_cashback_coin;
}

/// The filter a shred-stream sniper applies to trades.
#[derive(Debug, Clone, Copy)]
pub struct StreamFilter {
    pub target_mint: Option<Address>,
    pub require_created_buy: bool,
    pub max_event_age_ms: u64,
}

/// What to do after a stream event.
#[derive(Debug, Clone, Copy)]
pub enum StreamStep {
    /// A create event was remembered.
    Remembered,
    /// Nothing to do for this event.
    Skipped,
    /// Buy on this (completed) trade.
    Selected(TradeEvent),
    /// Derive the bonding curve's token account for `event.mint` from `ctx`, then call
    /// `finish_streamed_trade`.
    NeedsCurveAccount { event: TradeEvent, ctx: CreatedMintContext },
}

/// The decision on a completed trade.
pub open spec fn decide(e: TradeEvent, filter: StreamFilter, now_us: i64) -> StreamStep {
    if matches_filter(e, filter.target_mint, filter.require_created_buy) && spec_event_fresh(
        e.grpc_recv_us,
        now_us,
        filter.max_event_age_ms,
    ) {
        StreamStep::Selected(e)
    } else {
        StreamStep::Skipped
    }
}

fn decide_exec(e: TradeEvent, filter: &StreamFilter, now_us: i64) -> (r: StreamStep)
    ensures
        r == decide(e, *filter, now_us),
{
    if select_streamed_trade(
        &e,
        filter.target_mint,
        filter.require_created_buy,
        filter.max_event_age_ms,
        now_us,
    ) {
        StreamStep::Selected(e)
    } else {
        StreamStep::Skipped
    }
}

/// The decision on a trade of the stream, given the table after pruning.
pub open spec fn spec_trade_step(
    e: TradeEvent,
    table: Map<Seq<u8>, CreatedMintContext>,
    filter: StreamFilter,
    now_us: i64,
) -> StreamStep {
    if table.dom().contains(e.mint@) {
        let ctx = table[e.mint@];
        if needs_derived_curve_account(e, ctx) {
            StreamStep::NeedsCurveAccount { event: e, ctx }
        } else {
            decide(spec_enrich(e, ctx, e.associated_bonding_curve), filter, now_us)
        }
    } else {
        decide(e, filter, now_us)
    }
}

/// Handles one event of the shred stream at `now_ns` / `now_us`: forgets stale create
/// contexts, remembers create events, and completes and filters trades.
pub fn on_stream_event(
    table: &mut CreatedMints,
    event: DexEvent,
    filter: &StreamFilter,
    now_ns: u64,
    now_us: i64,
) -> (r: StreamStep)
    ensures
        match event {
            DexEvent::PumpFunCreate(c) => final(table)@ == recent_only(old(table)@, now_ns).insert(
                c.mint@,
                context_of_create(c, now_ns),
            ) && r is Remembered,
            DexEvent::PumpFunCreateV2(c) => final(table)@ == recent_only(old(table)@, now_ns).insert(
                c.mint@,
                context_of_create_v2(c, now_ns),
            ) && r is Remembered,
            DexEvent::PumpFunBuy(e) => final(table)@ == recent_only(old(table)@, now_ns) && r
                == spec_trade_step(e, recent_only(old(table)@, now_ns), *filter, now_us),
            DexEvent::PumpFunBuyExactSolIn(e) => final(table)@ == recent_only(old(table)@, now_ns)
                && r == spec_trade_step(e, recent_only(old(table)@, now_ns), *filter, now_us),
            DexEvent::PumpFunTrade(e) => final(table)@ == recent_only(old(table)@, now_ns) && r
                == spec_trade_step(e, recent_only(old(table)@, now_ns), *filter, now_us),
            DexEvent::Other => final(table)@ == recent_only(old(table)@, now_ns) && r is Skipped,
        },
{
    table.prune(now_ns);
    let e = match event {
        DexEvent::PumpFunCreate(c) => {
            remember_create(table, &c, now_ns);
            return StreamStep::Remembered;
        },
        DexEvent::PumpFunCreateV2(c) => {
            remember_create_v2(table, &c, now_ns);
            return StreamStep::Remembered;
        },
        DexEvent::PumpFunBuy(e) => e,
        DexEvent::PumpFunBuyExactSolIn(e) => e,
        DexEvent::PumpFunTrade(e) => e,
        DexEvent::Other => {
            return StreamStep::Skipped;
        },
    };
    match table.get(&e.mint) {
        Some(ctx) => {
            if e.associated_bonding_curve.is_zero() && ctx.associated_bonding_curve.is_none() {
                StreamStep::NeedsCurveAccount { event: e, ctx }
            } else {
                let mut done = e;
                let unused = e.associated_bonding_curve;
                enrich_trade_from_create(&mut done, &ctx, unused);
                decide_exec(done, filter, now_us)
            }
        },
        None => decide_exec(e, filter, now_us),
    }
}

/// Completes a trade that needed the bonding curve's token account derived, and decides on
/// it.
pub fn finish_streamed_trade(
    event: TradeEvent,
    ctx: &CreatedMintContext,
    derived: Address,
    filter: &StreamFilter,
    now_us: i64,
) -> (r: StreamStep)
    ensures
        r == decide(spec_enrich(event, *ctx, derived), *filter, now_us),
{
    let mut done = event;
    enrich_trade_from_create(&mut done, ctx, derived);
    decide_exec(done, filter, now_us)
}

/// Law: a mint remembered from a create event is found again with exactly that context.
pub proof fn law_remembered_mint_found(
    m: Map<Seq<u8>, CreatedMintContext>,
    e: CreateEvent,
    now_ns: u64,
)
    ensures
        m.insert(e.mint@, context_of_create(e, now_ns)).dom().contains(e.mint@),
        m.insert(e.mint@, context_of_create(e, now_ns))[e.mint@] == context_of_create(e, now_ns),
{
}

/// Law: pruning keeps exactly the mints seen within the time to live, unchanged, and a mint
/// remembered at `now_ns` survives a prune at the same time.
pub proof fn law_prune_keeps_recent(
    m: Map<Seq<u8>, CreatedMintContext>,
    now_ns: u64,
    k: Seq<u8>,
    ctx: CreatedMintContext,
)
    ensures
        recent_only(m, now_ns).dom().contains(k) <==> (m.dom().contains(k) && is_recent(m[k], now_ns)),
        recent_only(m, now_ns).dom().contains(k) ==> recent_only(m, now_ns)[k] == m[k],
        ctx.observed_at_ns == now_ns ==> recent_only(m.insert(k, ctx), now_ns).dom().contains(k),
{
}

/// Law: completing a trade never replaces an account the trade already carries, and only
/// fills a missing one from the create context (or the derived account).
pub proof fn law_enrich_keeps_known_accounts(e: TradeEvent, ctx: CreatedMintContext, d: Address)
    ensures
        e.creator@ != zero_address() ==> spec_enrich(e, ctx, d).creator == e.creator,
        e.bonding_curve@ != zero_address() ==> spec_enrich(e, ctx, d).bonding_curve == e.bonding_curve,
        e.token_program@ != zero_address() ==> spec_enrich(e, ctx, d).token_program == e.token_program,
        e.associated_bonding_curve@ != zero_address() ==> spec_enrich(e, ctx, d).associated_bonding_curve
            == e.associated_bonding_curve,
        spec_enrich(e, ctx, d).mint == e.mint,
        spec_enrich(e, ctx, d).is_buy == e.is_buy,
        spec_enrich(e, ctx, d).grpc_recv_us == e.grpc_recv_us,
{
}

/// Law: a trade that lacks the bonding curve's token account takes the one its create
/// context names; the derived account is used only when the context names none.
pub proof fn law_missing_curve_account_comes_from_create(
    e: TradeEvent,
    ctx: CreatedMintContext,
    derived: Address,
    named: Address,
)
    requires
        e.associated_bonding_curve@ == zero_address(),
    ensures
        ctx.associated_bonding_curve == Some(named) ==> spec_enrich(e, ctx, derived).associated_bonding_curve
            == named,
        ctx.associated_bonding_curve is None ==> spec_enrich(e, ctx, derived).associated_bonding_curve
            == derived,
        ctx.associated_bonding_curve is Some ==> !needs_derived_curve_account(e, ctx),
{
}

/// Law: after a create-v2 event for a mint is remembered at `seen_ns`, a later trade of that
/// mint within the time to live that lacks the bonding curve's token account is completed
/// with the account the create-v2 event named: it is selected exactly when it passes the
/// filter and is fresh, and then carries that account, its mint and its own buy flags.
pub proof fn law_create_v2_account_completes_later_trade(
    m: Map<Seq<u8>, CreatedMintContext>,
    c: CreateV2Event,
    seen_ns: u64,
    now_ns: u64,
    e: TradeEvent,
    filter: StreamFilter,
    now_us: i64,
)
    requires
        e.mint@ == c.mint@,
        e.associated_bonding_curve@ == zero_address(),
        seen_ns <= now_ns,
        now_ns - seen_ns < CREATED_MINT_TTL_NS,
    ensures
        ({
            let table = recent_only(recent_only(m, seen_ns).insert(c.mint@, context_of_create_v2(c, seen_ns)), now_ns);
            &&& spec_trade_step(e, table, filter, now_us) is Selected <==> (matches_filter(
                e,
                filter.target_mint,
                filter.require_created_buy,
            ) && spec_event_fresh(e.grpc_recv_us, now_us, filter.max_event_age_ms))
            &&& spec_trade_step(e, table, filter, now_us) matches StreamStep::Selected(t) ==> {
                &&& t.associated_bonding_curve == c.associated_bonding_curve
                &&& t.mint == e.mint
                &&& t.is_buy == e.is_buy
                &&& t.is_created_buy == e.is_created_buy
            }
        }),
{
    let m1 = recent_only(m, seen_ns).insert(c.mint@, context_of_create_v2(c, seen_ns));
    let table = recent_only(m1, now_ns);
    assert(m1.dom().contains(c.mint@));
    assert(is_recent(m1[c.mint@], now_ns));
    assert(table.dom().contains(e.mint@));
    assert(table[e.mint@] == context_of_create_v2(c, seen_ns));
}

/// Law: a trade the shred-stream sniper selects, with or without a create context, is a buy
/// of the same mint, the creator's first buy when that is required (whatever the target
/// mint), on the target mint when one is set, and fresh.
pub proof fn law_streamed_selection_meets_every_requirement(
    e: TradeEvent,
    table: Map<Seq<u8>, CreatedMintContext>,
    filter: StreamFilter,
    now_us: i64,
    derived: Address,
)
    ensures
        spec_trade_step(e, table, filter, now_us) matches StreamStep::Selected(t) ==> {
            &&& t.mint == e.mint
            &&& t.is_buy
            &&& (filter.require_created_buy ==> t.is_created_buy)
            &&& (filter.target_mint matches Some(m) ==> t.mint@ == m@)
            &&& spec_event_fresh(t.grpc_recv_us, now_us, filter.max_event_age_ms)
        },
        table.dom().contains(e.mint@) ==> (decide(spec_enrich(e, table[e.mint@], derived), filter, now_us)
            matches StreamStep::Selected(t) ==> {
            &&& t.mint == e.mint
            &&& t.is_buy
            &&& (filter.require_created_buy ==> t.is_created_buy)
            &&& (filter.target_mint matches Some(m) ==> t.mint@ == m@)
        }),
{
}

/// Law: a create context is kept for exactly one minute after it was seen: a mint seen less
/// than 60 s ago is still known, one seen 60 s ago or earlier is forgotten (a clock behind the
/// observation counts as no time).
pub proof fn law_created_mints_live_one_minute(ctx: CreatedMintContext, now_ns: u64)
    ensures
        CREATED_MINT_TTL_NS == 60_000_000_000,
        now_ns <= ctx.observed_at_ns ==> is_recent(ctx, now_ns),
        now_ns >= ctx.observed_at_ns ==> (is_recent(ctx, now_ns) <==> now_ns - ctx.observed_at_ns
            < 60_000_000_000),
{
}

} // verus!
