//! The buy → hold → sell → rest cycle that every trading loop of the bots follows, as a
//! state machine. The caller performs each action (an RPC read, a submission, a sleep)
//! and feeds back what happened; the machine decides what comes next.
use vstd::prelude::*;

verus! {

/// How much is sold at the end of a round.
#[derive(Debug, Clone, Copy, PartialEq, Eq, Structural)]
pub enum SellSizing {
    /// The wallet's whole balance of the mint after the buy.
    FullBalance,
    /// Only what the round's buy added: the balance after minus the balance before.
    NewTokensOnly,
}

/// The fixed parameters of a run.
#[derive(Debug, Clone, Copy, PartialEq, Eq, Structural)]
pub struct CyclePlan {
    /// Number of buy/sell rounds.
    pub rounds: u32,
    /// Seconds to wait between a buy and the balance read that sizes the sell.
    pub hold_secs: u64,
    /// Seconds to rest after a sell before the next round.
    pub rest_secs: u64,
    /// How the sell is sized.
    pub sizing: SellSizing,
    /// Whether a durable nonce must be refreshed before each sell.
    pub refresh_sell_nonce: bool,
}

/// Where the machine stands, and which event it waits for.
#[derive(Debug, Clone, Copy, PartialEq, Eq, Structural)]
pub enum Phase {
    /// Not started; waits for `Begin`.
    Start,
    /// Waits for the balance read before the buy.
    AwaitBalanceBefore,
    /// Waits for the outcome of the buy.
    AwaitBuy,
    /// Waits for the hold to end.
    AwaitHold,
    /// Waits for the balance read after the hold.
    AwaitBalanceAfter,
    /// Waits for the durable nonce refresh.
    AwaitNonce,
    /// Waits for the outcome of the sell.
    AwaitSell,
    /// Waits for the rest between rounds to end.
    AwaitRest,
    /// All rounds done.
    Finished,
    /// Stopped on an error.
    Failed,
}

/// Outcome of refreshing the sell-side durable nonce.
#[derive(Debug, Clone, Copy, PartialEq, Eq, Structural)]
pub enum NonceStatus {
    /// A fresh nonce was fetched.
    Refreshed,
    /// The nonce information names no nonce account.
    MissingAccount,
    /// The nonce account could not be read.
    Unavailable,
}

/// What the caller reports back after performing an action.
#[derive(Debug, Clone, Copy, PartialEq, Eq, Structural)]
pub enum CycleEvent {
    /// Start the run.
    Begin,
    /// The wallet's token balance of the mint.
    BalanceRead(u64),
    /// Whether the buy was accepted.
    BuyDone(bool),
    /// The hold after the buy is over.
    HoldDone,
    /// The result of a nonce refresh.
    NonceRefreshed(NonceStatus),
    /// Whether the sell was accepted.
    SellDone(bool),
    /// The rest between rounds is over.
    RestDone,
}

/// Why a run stopped early.
#[derive(Debug, Clone, Copy, PartialEq, Eq, Structural)]
pub enum CycleError {
    /// The buy of the given round was not accepted.
    BuyFailed { round: u32 },
    /// The sell of the given round was not accepted.
    SellFailed { round: u32 },
    /// The balance to sell is zero.
    EmptyBalance { round: u32 },
    /// The balance after the buy is lower than before it; existing holdings are not sold.
    BalanceDecreased { round: u32, before: u64, after: u64 },
    /// The buy did not add any token.
    NoNewTokens { round: u32 },
    /// The durable nonce information names no nonce account.
    NonceAccountMissing,
    /// The durable nonce account could not be read.
    NonceUnavailable,
}

/// What the caller has to do next.
#[derive(Debug, Clone, Copy, PartialEq, Eq, Structural)]
pub enum CycleAction {
    /// Read the wallet's balance of the mint before buying.
    ReadBalanceBefore { round: u32 },
    /// Build and submit the buy.
    SubmitBuy { round: u32 },
    /// Wait this many seconds.
    Hold { secs: u64 },
    /// Read the wallet's balance of the mint after the hold.
    ReadBalanceAfter { round: u32 },
    /// Refresh the durable nonce used by the sell.
    RefreshSellNonce { round: u32 },
    /// Build and submit a sell of exactly `amount` tokens.
    SubmitSell { round: u32, amount: u64 },
    /// Wait this many seconds before the next round.
    Rest { secs: u64 },
    /// The run is complete.
    Finished,
    /// The run stopped on an error.
    Failed(CycleError),
}

/// The state of a run.
#[derive(Debug, Clone, Copy, PartialEq, Eq, Structural)]
pub struct CycleState {
    /// The run's parameters.
    pub plan: CyclePlan,
    /// Current phase.
    pub phase: Phase,
    /// Current round, from 1.
    pub round: u32,
    /// Balance read before the current round's buy.
    pub balance_before: u64,
    /// Amount chosen for the current round's sell.
    pub sell_amount: u64,
    /// Buys submitted so far.
    pub buys: u32,
    /// Sells submitted so far.
    pub sells: u32,
}

/// The state a run starts in.
pub open spec fn initial(plan: CyclePlan) -> CycleState {
    CycleState {
        plan,
        phase: Phase::Start,
        round: 0,
        balance_before: 0,
        sell_amount: 0,
        buys: 0,
        sells: 0,
    }
}

/// Whether the machine waits for `e` in state `s`.
pub open spec fn spec_expects(s: CycleState, e: CycleEvent) -> bool {
    match s.phase {
        Phase::Start => e is Begin,
        Phase::AwaitBalanceBefore => e is BalanceRead,
        Phase::AwaitBuy => e is BuyDone,
        Phase::AwaitHold => e is HoldDone,
        Phase::AwaitBalanceAfter => e is BalanceRead,
        Phase::AwaitNonce => e is NonceRefreshed,
        Phase::AwaitSell => e is SellDone,
        Phase::AwaitRest => e is RestDone,
        Phase::Finished => false,
        Phase::Failed => false,
    }
}

/// The consistency of a state: counters and round stay within the plan, and a sell is
/// chosen (and positive) exactly in the phases that lead to it.
pub open spec fn wf(s: CycleState) -> bool {
    &&& s.round <= s.plan.rounds
    &&& s.sells <= s.buys <= s.round
    &&& (s.phase is Start ==> s.round == 0 && s.buys == 0 && s.sells == 0)
    &&& (s.phase is AwaitBalanceBefore ==> s.round >= 1 && s.buys == s.round - 1 && s.sells
        == s.buys)
    &&& (s.phase is AwaitBuy || s.phase is AwaitHold || s.phase is AwaitBalanceAfter
        || s.phase is AwaitNonce ==> s.round >= 1 && s.buys == s.round && s.sells == s.round - 1)
    &&& (s.phase is AwaitSell ==> s.round >= 1 && s.buys == s.round && s.sells == s.round)
    &&& (s.phase is AwaitRest ==> s.round >= 1 && s.round < s.plan.rounds && s.buys == s.round
        && s.sells == s.round)
    &&& (s.phase is AwaitNonce || s.phase is AwaitSell ==> s.sell_amount > 0)
    &&& (s.phase is Finished ==> s.round == s.plan.rounds && s.buys == s.plan.rounds && s.sells
        == s.plan.rounds)
}

/// Start round `round`: read the balance first when the sell only takes new tokens,
/// otherwise buy right away.
pub open spec fn begin_round(s: CycleState, round: u32) -> (CycleState, CycleAction) {
    match s.plan.sizing {
        SellSizing::NewTokensOnly => (
            CycleState { phase: Phase::AwaitBalanceBefore, round, ..s },
            CycleAction::ReadBalanceBefore { round },
        ),
        SellSizing::FullBalance => (
            CycleState { phase: Phase::AwaitBuy, round, buys: (s.buys + 1) as u32, ..s },
            CycleAction::SubmitBuy { round },
        ),
    }
}

/// Stop with `err`.
pub open spec fn fail(s: CycleState, err: CycleError) -> (CycleState, CycleAction) {
    (CycleState { phase: Phase::Failed, ..s }, CycleAction::Failed(err))
}

/// Sell `amount` in the current round, after a nonce refresh when the plan asks for one.
pub open spec fn choose_sell(s: CycleState, amount: u64) -> (CycleState, CycleAction) {
    if s.plan.refresh_sell_nonce {
        (
            CycleState { phase: Phase::AwaitNonce, sell_amount: amount, ..s },
            CycleAction::RefreshSellNonce { round: s.round },
        )
    } else {
        (
            CycleState {
                phase: Phase::AwaitSell,
                sell_amount: amount,
                sells: (s.sells + 1) as u32,
                ..s
            },
            CycleAction::SubmitSell { round: s.round, amount },
        )
    }
}

/// The transition taken on event `e` in state `s`.
pub open spec fn spec_step(s: CycleState, e: CycleEvent) -> (CycleState, CycleAction) {
    match (s.phase, e) {
        (Phase::Start, CycleEvent::Begin) => if s.plan.rounds == 0 {
            (CycleState { phase: Phase::Finished, ..s }, CycleAction::Finished)
        } else {
            begin_round(s, 1)
        },
        (Phase::AwaitBalanceBefore, CycleEvent::BalanceRead(before)) => (
            CycleState {
                phase: Phase::AwaitBuy,
                balance_before: before,
                buys: (s.buys + 1) as u32,
                ..s
            },
            CycleAction::SubmitBuy { round: s.round },
        ),
        (Phase::AwaitBuy, CycleEvent::BuyDone(ok)) => if ok {
            (CycleState { phase: Phase::AwaitHold, ..s }, CycleAction::Hold { secs: s.plan.hold_secs })
        } else {
            fail(s, CycleError::BuyFailed { round: s.round })
        },
        (Phase::AwaitHold, CycleEvent::HoldDone) => (
            CycleState { phase: Phase::AwaitBalanceAfter, ..s },
            CycleAction::ReadBalanceAfter { round: s.round },
        ),
        (Phase::AwaitBalanceAfter, CycleEvent::BalanceRead(after)) => match s.plan.sizing {
            SellSizing::FullBalance => if after == 0 {
                fail(s, CycleError::EmptyBalance { round: s.round })
            } else {
                choose_sell(s, after)
            },
            SellSizing::NewTokensOnly => if after < s.balance_before {
                fail(
                    s,
                    CycleError::BalanceDecreased {
                        round: s.round,
                        before: s.balance_before,
                        after,
                    },
                )
            } else if after == s.balance_before {
                fail(s, CycleError::NoNewTokens { round: s.round })
            } else {
                choose_sell(s, (after - s.balance_before) as u64)
            },
        },
        (Phase::AwaitNonce, CycleEvent::NonceRefreshed(status)) => match status {
            NonceStatus::Refreshed => (
                CycleState { phase: Phase::AwaitSell, sells: (s.sells + 1) as u32, ..s },
                CycleAction::SubmitSell { round: s.round, amount: s.sell_amount },
            ),
            NonceStatus::MissingAccount => fail(s, CycleError::NonceAccountMissing),
            NonceStatus::Unavailable => fail(s, CycleError::NonceUnavailable),
        },
        (Phase::AwaitSell, CycleEvent::SellDone(ok)) => if !ok {
            fail(s, CycleError::SellFailed { round: s.round })
        } else if s.round < s.plan.rounds {
            (CycleState { phase: Phase::AwaitRest, ..s }, CycleAction::Rest { secs: s.plan.rest_secs })
        } else {
            (CycleState { phase: Phase::Finished, ..s }, CycleAction::Finished)
        },
        (Phase::AwaitRest, CycleEvent::RestDone) => begin_round(s, (s.round + 1) as u32),
        _ => (s, CycleAction::Finished),
    }
}

/// Whether every event of `evs`, fed in order from `s`, is one the machine waits for.
pub open spec fn accepts(s: CycleState, evs: Seq<CycleEvent>) -> bool
    decreases evs.len(),
{
    evs.len() == 0 || (spec_expects(s, evs[0]) && accepts(spec_step(s, evs[0]).0, evs.drop_first()))
}

/// The actions produced by feeding `evs` in order from `s`.
pub open spec fn run_actions(s: CycleState, evs: Seq<CycleEvent>) -> Seq<CycleAction>
    decreases evs.len(),
{
    if evs.len() == 0 {
        Seq::empty()
    } else {
        seq![spec_step(s, evs[0]).1] + run_actions(spec_step(s, evs[0]).0, evs.drop_first())
    }
}

/// The state reached by feeding `evs` in order from `s`.
pub open spec fn run_state(s: CycleState, evs: Seq<CycleEvent>) -> CycleState
    decreases evs.len(),
{
    if evs.len() == 0 {
        s
    } else {
        run_state(spec_step(s, evs[0]).0, evs.drop_first())
    }
}

/// Number of buy submissions among `acts`.
pub open spec fn count_buys(acts: Seq<CycleAction>) -> nat
    decreases acts.len(),
{
    if acts.len() == 0 {
        0
    } else {
        (if acts[0] is SubmitBuy { 1nat } else { 0nat }) + count_buys(acts.drop_first())
    }
}

/// Number of sell submissions among `acts`.
pub open spec fn count_sells(acts: Seq<CycleAction>) -> nat
    decreases acts.len(),
{
    if acts.len() == 0 {
        0
    } else {
        (if acts[0] is SubmitSell { 1nat } else { 0nat }) + count_sells(acts.drop_first())
    }
}

/// A step keeps a state consistent, and its counters move exactly with the submissions
/// it asks for.
pub proof fn lemma_step(s: CycleState, e: CycleEvent)
    requires
        wf(s),
        spec_expects(s, e),
    ensures
        wf(spec_step(s, e).0),
        spec_step(s, e).0.plan == s.plan,
        spec_step(s, e).0.buys == s.buys + (if spec_step(s, e).1 is SubmitBuy { 1int } else { 0int }),
        spec_step(s, e).0.sells == s.sells + (if spec_step(s, e).1 is SubmitSell { 1int } else { 0int }),
{
}

proof fn lemma_run(s: CycleState, evs: Seq<CycleEvent>)
    requires
        wf(s),
        accepts(s, evs),
    ensures
        wf(run_state(s, evs)),
        run_state(s, evs).plan == s.plan,
        count_buys(run_actions(s, evs)) == run_state(s, evs).buys - s.buys,
        count_sells(run_actions(s, evs)) == run_state(s, evs).sells - s.sells,
    decreases evs.len(),
{
    if evs.len() > 0 {
        let (t, a) = spec_step(s, evs[0]);
        lemma_step(s, evs[0]);
        lemma_run(t, evs.drop_first());
        let acts = run_actions(s, evs);
        assert(acts[0] == a);
        assert(acts.drop_first() =~= run_actions(t, evs.drop_first()));
    }
}

/// Law: whatever happens, a run submits at most one buy per configured round, and never
/// more sells than buys.
pub proof fn law_submissions_bounded(plan: CyclePlan, evs: Seq<CycleEvent>)
    requires
        accepts(initial(plan), evs),
    ensures
        count_sells(run_actions(initial(plan), evs)) <= count_buys(run_actions(initial(plan), evs)),
        count_buys(run_actions(initial(plan), evs)) <= plan.rounds,
{
    lemma_run(initial(plan), evs);
}

/// Law: a run that finishes has made exactly one buy and one sell in each configured round.
pub proof fn law_finished_run_completes_every_round(plan: CyclePlan, evs: Seq<CycleEvent>)
    requires
        accepts(initial(plan), evs),
        run_state(initial(plan), evs).phase is Finished,
    ensures
        count_buys(run_actions(initial(plan), evs)) == plan.rounds,
        count_sells(run_actions(initial(plan), evs)) == plan.rounds,
{
    lemma_run(initial(plan), evs);
}

/// Law: a sell is always for a positive amount, in a started round.
pub proof fn law_sell_positive(s: CycleState, e: CycleEvent)
    requires
        wf(s),
        spec_expects(s, e),
    ensures
        spec_step(s, e).1 matches CycleAction::SubmitSell { round, amount } ==> amount > 0
            && round == s.round && round >= 1,
{
}

/// Law: when only new tokens are sold, the amount chosen after the hold is exactly what the
/// round's buy added to the balance, and the run stops instead when nothing was added.
pub proof fn law_sell_only_new_tokens(s: CycleState, after: u64)
    requires
        wf(s),
        s.phase is AwaitBalanceAfter,
        s.plan.sizing is NewTokensOnly,
    ensures
        spec_step(s, CycleEvent::BalanceRead(after)).0.phase is Failed <==> after <= s.balance_before,
        after > s.balance_before ==> spec_step(s, CycleEvent::BalanceRead(after)).0.sell_amount == after
            - s.balance_before,
{
}

/// Law: when the full balance is sold, the amount chosen after the hold is the balance
/// read, and the run stops instead on an empty balance.
pub proof fn law_sell_full_balance(s: CycleState, after: u64)
    requires
        wf(s),
        s.phase is AwaitBalanceAfter,
        s.plan.sizing is FullBalance,
    ensures
        spec_step(s, CycleEvent::BalanceRead(after)).0.phase is Failed <==> after == 0,
        after > 0 ==> spec_step(s, CycleEvent::BalanceRead(after)).0.sell_amount == after,
{
}

/// Law: with a durable nonce, every sell comes right after a successful nonce refresh.
pub proof fn law_nonce_refreshed_before_sell(s: CycleState, e: CycleEvent)
    requires
        wf(s),
        spec_expects(s, e),
        s.plan.refresh_sell_nonce,
        spec_step(s, e).1 is SubmitSell,
    ensures
        s.phase is AwaitNonce,
        e == CycleEvent::NonceRefreshed(NonceStatus::Refreshed),
{
}

/// Law: a finished or failed run takes no further event.
pub proof fn law_terminal(s: CycleState, e: CycleEvent)
    requires
        s.phase is Finished || s.phase is Failed,
    ensures
        !spec_expects(s, e),
{
}

/// Law: a buy is only submitted in a round the plan allows, and a round after the first
/// only starts after the previous round's sell succeeded and the rest ended.
pub proof fn law_buy_within_plan(s: CycleState, e: CycleEvent)
    requires
        wf(s),
        spec_expects(s, e),
    ensures
        spec_step(s, e).1 matches CycleAction::SubmitBuy { round } ==> 1 <= round <= s.plan.rounds,
        (spec_step(s, e).1 is SubmitBuy || spec_step(s, e).1 is ReadBalanceBefore) && spec_step(s, e).0.round > 1
            ==> s.phase is AwaitRest || s.phase is AwaitBalanceBefore,
{
}

impl CycleState {
    /// A run of `plan` that has not started yet.
    pub fn new(plan: CyclePlan) -> (s: CycleState)
        ensures
            s == initial(plan),
            wf(s),
    {
        CycleState {
            plan,
            phase: Phase::Start,
            round: 0,
            balance_before: 0,
            sell_amount: 0,
            buys: 0,
            sells: 0,
        }
    }

    /// Whether the run waits for `event` now.
    pub fn expects(&self, event: &CycleEvent) -> (r: bool)
        ensures
            r == spec_expects(*self, *event),
    {
        match self.phase {
            Phase::Start => matches!(event, CycleEvent::Begin),
            Phase::AwaitBalanceBefore => matches!(event, CycleEvent::BalanceRead(_)),
            Phase::AwaitBuy => matches!(event, CycleEvent::BuyDone(_)),
            Phase::AwaitHold => matches!(event, CycleEvent::HoldDone),
            Phase::AwaitBalanceAfter => matches!(event, CycleEvent::BalanceRead(_)),
            Phase::AwaitNonce => matches!(event, CycleEvent::NonceRefreshed(_)),
            Phase::AwaitSell => matches!(event, CycleEvent::SellDone(_)),
            Phase::AwaitRest => matches!(event, CycleEvent::RestDone),
            Phase::Finished => false,
            Phase::Failed => false,
        }
    }

    fn begin_round_exec(&mut self, round: u32) -> (action: CycleAction)
        requires
            old(self).buys < u32::MAX,
        ensures
            (*final(self), action) == begin_round(*old(self), round),
    {
        match self.plan.sizing {
            SellSizing::NewTokensOnly => {
                self.phase = Phase::AwaitBalanceBefore;
                self.round = round;
                CycleAction::ReadBalanceBefore { round }
            },
            SellSizing::FullBalance => {
                self.phase = Phase::AwaitBuy;
                self.round = round;
                self.buys = self.buys + 1;
                CycleAction::SubmitBuy { round }
            },
        }
    }

    fn fail_exec(&mut self, err: CycleError) -> (action: CycleAction)
        ensures
            (*final(self), action) == fail(*old(self), err),
    {
        self.phase = Phase::Failed;
        CycleAction::Failed(err)
    }

    fn choose_sell_exec(&mut self, amount: u64) -> (action: CycleAction)
        requires
            old(self).sells < u32::MAX,
        ensures
            (*final(self), action) == choose_sell(*old(self), amount),
    {
        if self.plan.refresh_sell_nonce {
            self.phase = Phase::AwaitNonce;
            self.sell_amount = amount;
            CycleAction::RefreshSellNonce { round: self.round }
        } else {
            self.phase = Phase::AwaitSell;
            self.sell_amount = amount;
            self.sells = self.sells + 1;
            CycleAction::SubmitSell { round: self.round, amount }
        }
    }

    /// Feed `event` (the outcome of the last action) and get the next action.
    pub fn step(&mut self, event: CycleEvent) -> (action: CycleAction)
        requires
            wf(*old(self)),
            spec_expects(*old(self), event),
        ensures
            (*final(self), action) == spec_step(*old(self), event),
            wf(*final(self)),
    {
        match (self.phase, event) {
            (Phase::Start, CycleEvent::Begin) => {
                if self.plan.rounds == 0 {
                    self.phase = Phase::Finished;
                    CycleAction::Finished
                } else {
                    self.begin_round_exec(1)
                }
            },
            (Phase::AwaitBalanceBefore, CycleEvent::BalanceRead(before)) => {
                self.phase = Phase::AwaitBuy;
                self.balance_before = before;
                self.buys = self.buys + 1;
                CycleAction::SubmitBuy { round: self.round }
            },
            (Phase::AwaitBuy, CycleEvent::BuyDone(ok)) => {
                if ok {
                    self.phase = Phase::AwaitHold;
                    CycleAction::Hold { secs: self.plan.hold_secs }
                } else {
                    let round = self.round;
                    self.fail_exec(CycleError::BuyFailed { round })
                }
            },
            (Phase::AwaitHold, CycleEvent::HoldDone) => {
                self.phase = Phase::AwaitBalanceAfter;
                CycleAction::ReadBalanceAfter { round: self.round }
            },
            (Phase::AwaitBalanceAfter, CycleEvent::BalanceRead(after)) => {
                let round = self.round;
                match self.plan.sizing {
                    SellSizing::FullBalance => {
                        if after == 0 {
                            self.fail_exec(CycleError::EmptyBalance { round })
                        } else {
                            self.choose_sell_exec(after)
                        }
                    },
                    SellSizing::NewTokensOnly => {
                        let before = self.balance_before;
                        if after < before {
                            self.fail_exec(CycleError::BalanceDecreased { round, before, after })
                        } else if after == before {
                            self.fail_exec(CycleError::NoNewTokens { round })
                        } else {
                            self.choose_sell_exec(after - before)
                        }
                    },
                }
            },
            (Phase::AwaitNonce, CycleEvent::NonceRefreshed(status)) => {
                match status {
                    NonceStatus::Refreshed => {
                        self.phase = Phase::AwaitSell;
                        self.sells = self.sells + 1;
                        CycleAction::SubmitSell { round: self.round, amount: self.sell_amount }
                    },
                    NonceStatus::MissingAccount => self.fail_exec(
                        CycleError::NonceAccountMissing,
                    ),
                    NonceStatus::Unavailable => self.fail_exec(CycleError::NonceUnavailable),
                }
            },
            (Phase::AwaitSell, CycleEvent::SellDone(ok)) => {
                if !ok {
                    let round = self.round;
                    self.fail_exec(CycleError::SellFailed { round })
                } else if self.round < self.plan.rounds {
                    self.phase = Phase::AwaitRest;
                    CycleAction::Rest { secs: self.plan.rest_secs }
                } else {
                    self.phase = Phase::Finished;
                    CycleAction::Finished
                }
            },
            (Phase::AwaitRest, CycleEvent::RestDone) => {
                let next = self.round + 1;
                self.begin_round_exec(next)
            },
            _ => CycleAction::Finished,
        }
    }
}

} // verus!
