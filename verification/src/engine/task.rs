//! The loop of one market: its state, and what fills, ticks and the timer do to it.
use crate::decimal::Amount;
use crate::engine::fire::{Decimals, ExecutedOrderUpdate, Report};
use crate::engine::params::EngineParams;
use crate::engine::state::{
    can_decide,
    cools_down,
    elapsed,
    evaluate_and_act,
    guard_after,
    nanos_between,
    phase_after,
    try_evaluate_and_act,
    verdict,
    Decision,
    Market,
    MarketNames,
    Phase,
    PositionState,
    Tick,
    Verdict,
    NANOS_PER_SEC,
};
use crate::models::types::OrderSide;
use crate::risk::guard::{smaller_of, BudgetReservation, GuardState, RiskGuard};
use crate::scalar::Scalar;
use crate::text::same_text;
use vstd::prelude::*;
use vstd::string::*;

verus! {

/// The position of a token: what is reported of it, or else what the ledger knows.
pub open spec fn synced(reported: Option<Scalar>, local_net: Scalar) -> Scalar {
    match reported {
        Some(p) => p,
        None => Scalar::larger(local_net, Scalar::of(0)),
    }
}

/// The position of a token: what the exchange reports, or what the ledger knows where the
/// exchange does not answer, but not less than nothing.
pub fn sync_current_position(reported: Option<Scalar>, local_net: Scalar) -> (r: Scalar)
    ensures
        r == synced(reported, local_net),
{
    match reported {
        Some(p) => p,
        None => local_net.max(&Scalar::zero()),
    }
}

/// Whether the middle price of a quiet period is recorded.
pub fn records_idle_price(mid: Scalar) -> (r: bool)
    ensures
        r == mid.positive(),
{
    mid.is_positive()
}

/// What a fill did to the position.
#[derive(Clone, Copy, Debug, PartialEq, Eq, Structural)]
pub enum FillOutcome {
    Entered,
    /// The purchase failed; `announced` where there is something to say of it.
    BuyFailed { announced: bool },
    Exited,
    SellFailed,
    Ignored,
}

/// What the timer did to the position.
#[derive(Clone, Copy, Debug, PartialEq, Eq, Structural)]
pub enum TimerOutcome {
    Quiet,
    UnlockedBuy,
    UnlockedSell,
}

/// The loop of one market.
pub struct SniperTask {
    market: Market,
    state: PositionState,
    last_order_fail: Option<u128>,
    tick_count: u64,
}

/// What a [`SniperTask`] knows.
pub struct TaskState {
    pub market: MarketNames,
    pub phase: Phase,
    pub last_order_fail: Option<u128>,
    pub tick_count: u64,
}

impl View for SniperTask {
    type V = TaskState;

    closed spec fn view(&self) -> TaskState {
        TaskState {
            market: self.market@,
            phase: self.state@,
            last_order_fail: self.last_order_fail,
            tick_count: self.tick_count,
        }
    }
}

/// The position that a market starts with.
pub open spec fn first_phase(
    yes: Seq<char>,
    no: Seq<char>,
    pos_yes: Scalar,
    pos_no: Scalar,
) -> Phase {
    if pos_yes.positive() {
        Phase::Holding { token: yes, buy_price: Scalar::of(0), amount: pos_yes }
    } else if pos_no.positive() {
        Phase::Holding { token: no, buy_price: Scalar::of(0), amount: pos_no }
    } else {
        Phase::Empty
    }
}

/// What a report does to a position.
pub open spec fn fill_outcome(phase: Phase, report: Report) -> FillOutcome {
    match (phase, report.side, report.success) {
        (Phase::PendingBuy { .. }, OrderSide::Buy, true) => FillOutcome::Entered,
        (Phase::Empty, OrderSide::Buy, true) => FillOutcome::Entered,
        (Phase::PendingBuy { .. }, OrderSide::Buy, false) => FillOutcome::BuyFailed {
            announced: report.reservation is Some || report.size.positive(),
        },
        (Phase::PendingSell { .. }, OrderSide::Sell, true) => FillOutcome::Exited,
        (Phase::PendingSell { .. }, OrderSide::Sell, false) => FillOutcome::SellFailed,
        _ => FillOutcome::Ignored,
    }
}

/// The position after a report.
pub open spec fn phase_after_fill(phase: Phase, report: Report) -> Phase {
    let left = Scalar::larger(report.synced_position, Scalar::of(0));
    match fill_outcome(phase, report) {
        FillOutcome::Entered => Phase::Holding {
            token: report.token,
            buy_price: report.price,
            amount: report.size,
        },
        FillOutcome::BuyFailed { announced } => Phase::Empty,
        FillOutcome::Exited => if left.positive() {
            Phase::Holding {
                token: phase->PendingSell_token,
                buy_price: phase->PendingSell_buy_price,
                amount: left,
            }
        } else {
            Phase::Empty
        },
        FillOutcome::SellFailed => Phase::Holding {
            token: phase->PendingSell_token,
            buy_price: phase->PendingSell_buy_price,
            amount: phase->PendingSell_amount,
        },
        FillOutcome::Ignored => phase,
    }
}

impl TaskState {
    /// Decimal arithmetic can hold what a report asks of the budget.
    pub open spec fn can_fill(self, guard: GuardState, report: Report, decimals: Decimals) -> bool {
        fill_outcome(self.phase, report) is Entered && report.reservation is Some
            ==> guard.can_refund_delta(
            report.reservation->0.reserved(),
            decimals.price,
            decimals.size,
        )
    }

    /// The task after a report.
    pub open spec fn after_fill(self, report: Report, now: u128) -> TaskState {
        TaskState {
            phase: phase_after_fill(self.phase, report),
            last_order_fail: match fill_outcome(self.phase, report) {
                FillOutcome::Entered => None,
                FillOutcome::Exited => None,
                FillOutcome::Ignored => self.last_order_fail,
                _ => Some(now),
            },
            ..self
        }
    }

    /// What a report does to the guard: a filled purchase gives back what it left unused of its
    /// reservation, a fill moves the circuit breaker, and a failed purchase frees its slot.
    pub open spec fn fill_guards(
        self,
        pre: GuardState,
        report: Report,
        decimals: Decimals,
        drawdown_ratio: Scalar,
        post: GuardState,
    ) -> bool {
        match fill_outcome(self.phase, report) {
            FillOutcome::Entered => {
                let refunded = GuardState { frozen: pre.frozen, ..post };
                &&& post.frozen == pre.frozen_at(drawdown_ratio)
                &&& match report.reservation {
                    Some(r) => pre.refunds_delta(
                        r.reserved(),
                        decimals.price,
                        decimals.size,
                        refunded,
                    ),
                    None => refunded == pre,
                }
            },
            FillOutcome::BuyFailed { announced } => pre.releases_token(self.market.key, post),
            FillOutcome::Exited => post == (GuardState {
                frozen: pre.frozen_at(drawdown_ratio),
                ..pre
            }),
            _ => post == pre,
        }
    }

    /// What the timer finds.
    pub open spec fn timer_outcome(self, params: EngineParams, now: u128) -> TimerOutcome {
        let limit = params.pending_watchdog_secs * NANOS_PER_SEC;
        match self.phase {
            Phase::PendingBuy { token, entered_at } => if elapsed(entered_at, now) > limit {
                TimerOutcome::UnlockedBuy
            } else {
                TimerOutcome::Quiet
            },
            Phase::PendingSell { token, buy_price, amount, amount_trying_to_sell, entered_at } =>
            if elapsed(entered_at, now) > limit {
                TimerOutcome::UnlockedSell
            } else {
                TimerOutcome::Quiet
            },
            _ => TimerOutcome::Quiet,
        }
    }

    /// The task after the timer.
    pub open spec fn after_timer(self, params: EngineParams, now: u128) -> TaskState {
        match self.timer_outcome(params, now) {
            TimerOutcome::Quiet => self,
            TimerOutcome::UnlockedBuy => TaskState { phase: Phase::Empty, ..self },
            TimerOutcome::UnlockedSell => TaskState {
                phase: Phase::Holding {
                    token: self.phase->PendingSell_token,
                    buy_price: self.phase->PendingSell_buy_price,
                    amount: self.phase->PendingSell_amount,
                },
                ..self
            },
        }
    }

    /// The guard after the timer.
    pub open spec fn guard_after_timer(
        self,
        guard: GuardState,
        params: EngineParams,
        now: u128,
    ) -> GuardState {
        if self.timer_outcome(params, now) is UnlockedBuy {
            GuardState { token_slots: guard.token_slots.remove(self.market.key), ..guard }
        } else {
            guard
        }
    }

    /// What a tick leads to.
    pub open spec fn tick_verdict(
        self,
        guard: GuardState,
        params: EngineParams,
        tick: Tick,
        now: u128,
    ) -> Verdict {
        verdict(self.phase, guard, self.market, params, tick, self.last_order_fail, now)
    }

    /// Decimal arithmetic can hold what a tick asks of the budget.
    pub open spec fn can_tick(
        self,
        guard: GuardState,
        params: EngineParams,
        tick: Tick,
        now: u128,
    ) -> bool {
        can_decide(self.phase, guard, self.market, params, tick, self.last_order_fail, now)
    }

    /// The task after a tick.
    pub open spec fn after_tick(self, v: Verdict, now: u128) -> TaskState {
        TaskState {
            phase: phase_after(self.phase, v, now),
            tick_count: (self.tick_count + 1) as u64,
            ..self
        }
    }
}

impl SniperTask {
    /// The loop of a market in which `pos_yes` and `pos_no` are held. What is held of the yes
    /// token is sold before what is held of the no token. The yes token is the key of the market.
    pub fn new(
        yes_token_id: String,
        no_token_id: String,
        pos_yes: Scalar,
        pos_no: Scalar,
    ) -> (r: SniperTask)
        ensures
            r@ == (TaskState {
                market: MarketNames {
                    yes: yes_token_id@,
                    no: no_token_id@,
                    key: yes_token_id@,
                },
                phase: first_phase(yes_token_id@, no_token_id@, pos_yes, pos_no),
                last_order_fail: None,
                tick_count: 0,
            }),
    {
        let zero = Scalar::zero();
        let state = if pos_yes.is_positive() {
            PositionState::Holding {
                token_id: yes_token_id.clone(),
                buy_price: zero,
                amount: pos_yes,
            }
        } else if pos_no.is_positive() {
            PositionState::Holding {
                token_id: no_token_id.clone(),
                buy_price: zero,
                amount: pos_no,
            }
        } else {
            PositionState::Empty
        };
        let market_key = yes_token_id.clone();
        SniperTask {
            market: Market { yes_token_id, no_token_id, market_key },
            state,
            last_order_fail: None,
            tick_count: 0,
        }
    }

    /// The position.
    pub fn state(&self) -> (r: &PositionState)
        ensures
            r@ == self@.phase,
    {
        &self.state
    }

    /// The tokens of the market.
    pub fn market(&self) -> (r: &Market)
        ensures
            r@ == self@.market,
    {
        &self.market
    }

    /// How many ticks there were.
    pub fn tick_count(&self) -> (r: u64)
        ensures
            r == self@.tick_count,
    {
        self.tick_count
    }

    /// The tokens whose open orders are cancelled when the loop ends, in this order: both of the
    /// market, or the yes token alone where the no token is not known and its name is empty.
    pub fn tokens_to_cancel(&self) -> (r: Vec<String>)
        ensures
            r.len() == (if self@.market.no.len() == 0 {
                1int
            } else {
                2int
            }),
            r@[0]@ == self@.market.yes,
            self@.market.no.len() > 0 ==> r@[1]@ == self@.market.no,
    {
        let mut tokens: Vec<String> = Vec::new();
        tokens.push(self.market.yes_token_id.clone());
        if self.market.no_token_id.as_str().unicode_len() > 0 {
            tokens.push(self.market.no_token_id.clone());
        }
        tokens
    }

    /// The token whose position a tick has to look up: the one that is held, where it is one of
    /// this market.
    pub fn token_to_sync(&self) -> (r: Option<String>)
        ensures
            (r is Some) == (self@.phase is Holding && (self@.phase->Holding_token
                == self@.market.yes || self@.phase->Holding_token == self@.market.no)),
            r matches Some(token) ==> token@ == self@.phase->Holding_token,
    {
        match &self.state {
            PositionState::Holding { token_id, buy_price, amount } => {
                if same_text(token_id.as_str(), self.market.yes_token_id.as_str()) || same_text(
                    token_id.as_str(),
                    self.market.no_token_id.as_str(),
                ) {
                    Some(token_id.clone())
                } else {
                    None
                }
            },
            _ => None,
        }
    }

    /// Takes the report of an order. `decimals` holds the decimal values of its price and size,
    /// and `drawdown_ratio` is the realized loss of the account divided by its budget.
    pub fn on_fill(
        &mut self,
        guard: &mut RiskGuard,
        update: ExecutedOrderUpdate,
        decimals: Decimals,
        drawdown_ratio: Scalar,
        now: u128,
    ) -> (r: FillOutcome)
        requires
            old(self)@.can_fill(old(guard)@, update@, decimals),
        ensures
            r == fill_outcome(old(self)@.phase, update@),
            final(self)@ == old(self)@.after_fill(update@, now),
            old(self)@.fill_guards(old(guard)@, update@, decimals, drawdown_ratio, final(guard)@),
    {
        let left = update.synced_position.max(&Scalar::zero());
        let (outcome, next) = match (&self.state, update.side, update.success) {
            (PositionState::PendingBuy { .. }, OrderSide::Buy, true)
            | (PositionState::Empty, OrderSide::Buy, true) => {
                if let Some(reservation) = &update.reservation {
                    guard.refund_budget_delta(reservation, decimals.price, decimals.size);
                }
                guard.update_circuit_breaker(drawdown_ratio);
                let held = PositionState::Holding {
                    token_id: update.token_id,
                    buy_price: update.price,
                    amount: update.size,
                };
                (FillOutcome::Entered, held)
            },
            (PositionState::PendingBuy { .. }, OrderSide::Buy, false) => {
                let announced: bool = update.reservation.is_some() || update.size.is_positive();
                guard.release_token_buy_slot(self.market.market_key.as_str());
                (FillOutcome::BuyFailed { announced }, PositionState::Empty)
            },
            (PositionState::PendingSell { token_id, buy_price, .. }, OrderSide::Sell, true) => {
                guard.update_circuit_breaker(drawdown_ratio);
                let next = if left.is_positive() {
                    PositionState::Holding {
                        token_id: token_id.clone(),
                        buy_price: *buy_price,
                        amount: left,
                    }
                } else {
                    PositionState::Empty
                };
                (FillOutcome::Exited, next)
            },
            (
                PositionState::PendingSell { token_id, buy_price, amount, .. },
                OrderSide::Sell,
                false,
            ) => {
                let next = PositionState::Holding {
                    token_id: token_id.clone(),
                    buy_price: *buy_price,
                    amount: *amount,
                };
                (FillOutcome::SellFailed, next)
            },
            _ => {
                return FillOutcome::Ignored;
            },
        };
        self.state = next;
        match outcome {
            FillOutcome::Entered | FillOutcome::Exited => {
                self.last_order_fail = None;
            },
            _ => {
                self.last_order_fail = Some(now);
            },
        }
        outcome
    }

    /// [`SniperTask::on_fill`] where decimal arithmetic can hold what the report asks of the
    /// budget; `None`, and nothing done, where it cannot.
    pub fn try_on_fill(
        &mut self,
        guard: &mut RiskGuard,
        update: ExecutedOrderUpdate,
        decimals: Decimals,
        drawdown_ratio: Scalar,
        now: u128,
    ) -> (r: Option<FillOutcome>)
        ensures
            r is Some <==> old(self)@.can_fill(old(guard)@, update@, decimals),
            r matches Some(outcome) ==> {
                &&& outcome == fill_outcome(old(self)@.phase, update@)
                &&& final(self)@ == old(self)@.after_fill(update@, now)
                &&& old(self)@.fill_guards(
                    old(guard)@,
                    update@,
                    decimals,
                    drawdown_ratio,
                    final(guard)@,
                )
            },
            r is None ==> final(self)@ == old(self)@ && final(guard)@ == old(guard)@,
    {
        let enters: bool = update.success && update.side == OrderSide::Buy && match &self.state {
            PositionState::PendingBuy { .. } => true,
            PositionState::Empty => true,
            _ => false,
        };
        if enters {
            if let Some(reservation) = &update.reservation {
                if !guard.can_refund_delta(reservation, decimals.price, decimals.size) {
                    return None;
                }
            }
        }
        Some(self.on_fill(guard, update, decimals, drawdown_ratio, now))
    }

    /// Unlocks a position that has been pending for longer than the watchdog allows.
    pub fn on_timer(&mut self, guard: &mut RiskGuard, params: &EngineParams, now: u128) -> (r:
        TimerOutcome)
        ensures
            r == old(self)@.timer_outcome(*params, now),
            final(self)@ == old(self)@.after_timer(*params, now),
            final(guard)@ == old(self)@.guard_after_timer(old(guard)@, *params, now),
    {
        let limit: u128 = params.pending_watchdog_secs as u128 * NANOS_PER_SEC;
        let (outcome, next) = match &self.state {
            PositionState::PendingBuy { entered_at, .. } => {
                if nanos_between(*entered_at, now) <= limit {
                    return TimerOutcome::Quiet;
                }
                guard.release_token_buy_slot(self.market.market_key.as_str());
                (TimerOutcome::UnlockedBuy, PositionState::Empty)
            },
            PositionState::PendingSell { token_id, buy_price, amount, entered_at, .. } => {
                if nanos_between(*entered_at, now) <= limit {
                    return TimerOutcome::Quiet;
                }
                let next = PositionState::Holding {
                    token_id: token_id.clone(),
                    buy_price: *buy_price,
                    amount: *amount,
                };
                (TimerOutcome::UnlockedSell, next)
            },
            _ => {
                return TimerOutcome::Quiet;
            },
        };
        self.state = next;
        outcome
    }

    /// Unlocks a position that has been pending for longer than the watchdog allows, counts the
    /// tick and decides what it leads to.
    pub fn on_tick(
        &mut self,
        guard: &mut RiskGuard,
        params: &EngineParams,
        tick: &Tick,
        now: u128,
    ) -> (r: Decision)
        requires
            old(self)@.tick_count < u64::MAX,
            old(self)@.after_timer(*params, now).can_tick(
                old(self)@.guard_after_timer(old(guard)@, *params, now),
                *params,
                *tick,
                now,
            ),
        ensures
            r@ == old(self)@.after_timer(*params, now).tick_verdict(
                old(self)@.guard_after_timer(old(guard)@, *params, now),
                *params,
                *tick,
                now,
            ),
            final(self)@ == old(self)@.after_timer(*params, now).after_tick(r@, now),
            final(guard)@ == guard_after(
                old(self)@.guard_after_timer(old(guard)@, *params, now),
                old(self)@.market,
                r@,
            ),
    {
        let _ = self.on_timer(guard, params, now);
        self.tick_count = self.tick_count + 1;
        evaluate_and_act(
            &mut self.state,
            guard,
            &self.market,
            params,
            tick,
            self.last_order_fail,
            now,
        )
    }

    /// [`SniperTask::on_tick`] where decimal arithmetic can hold what the tick asks of the
    /// budget; `None`, and nothing done but what the watchdog does, where it cannot.
    pub fn try_on_tick(
        &mut self,
        guard: &mut RiskGuard,
        params: &EngineParams,
        tick: &Tick,
        now: u128,
    ) -> (r: Option<Decision>)
        requires
            old(self)@.tick_count < u64::MAX,
        ensures
            r is Some <==> old(self)@.after_timer(*params, now).can_tick(
                old(self)@.guard_after_timer(old(guard)@, *params, now),
                *params,
                *tick,
                now,
            ),
            r matches Some(decision) ==> {
                let unlocked = old(self)@.guard_after_timer(old(guard)@, *params, now);
                &&& decision@ == old(self)@.after_timer(*params, now).tick_verdict(
                    unlocked,
                    *params,
                    *tick,
                    now,
                )
                &&& final(self)@ == old(self)@.after_timer(*params, now).after_tick(
                    decision@,
                    now,
                )
                &&& final(guard)@ == guard_after(unlocked, old(self)@.market, decision@)
            },
            r is None ==> final(self)@ == old(self)@.after_timer(*params, now) && final(guard)@
                == old(self)@.guard_after_timer(old(guard)@, *params, now),
    {
        let _ = self.on_timer(guard, params, now);
        let decided = try_evaluate_and_act(
            &mut self.state,
            guard,
            &self.market,
            params,
            tick,
            self.last_order_fail,
            now,
        );
        if decided.is_some() {
            self.tick_count = self.tick_count + 1;
        }
        decided
    }
}

/// A report moves a pending purchase to a held or an empty position, a pending sale to a held or
/// an empty one of the same token, an empty position at most to a held one, and a held position
/// not at all; a report for the other side changes nothing.
pub proof fn law_reports_follow_the_state_machine(task: TaskState, report: Report, now: u128)
    ensures
        ({
            let next = task.after_fill(report, now).phase;
            &&& task.phase is PendingBuy && report.side == OrderSide::Buy ==> (if report.success {
                next is Holding && next->Holding_token == report.token
            } else {
                next is Empty
            })
            &&& task.phase is PendingSell && report.side == OrderSide::Sell ==> (next is Empty || (
            next is Holding && next->Holding_token == task.phase->PendingSell_token
                && next->Holding_buy_price == task.phase->PendingSell_buy_price))
            &&& task.phase is PendingSell && report.side == OrderSide::Sell && !report.success
                ==> next is Holding && next->Holding_amount == task.phase->PendingSell_amount
            &&& task.phase is Holding ==> next == task.phase
            &&& task.phase is Empty ==> next is Empty || (next is Holding && report.success
                && report.side == OrderSide::Buy)
            &&& task.phase is PendingBuy && report.side == OrderSide::Sell ==> next == task.phase
            &&& task.phase is PendingSell && report.side == OrderSide::Buy ==> next == task.phase
        }),
{
}

/// Once the watchdog's time is over the timer takes a pending purchase to an empty position, with
/// its slot freed, and a pending sale back to what was held; before that it changes nothing.
pub proof fn law_the_timer_unlocks_what_is_stuck(
    task: TaskState,
    guard: GuardState,
    params: EngineParams,
    now: u128,
)
    ensures
        ({
            let limit = params.pending_watchdog_secs * NANOS_PER_SEC;
            let next = task.after_timer(params, now);
            &&& task.phase is PendingBuy && elapsed(task.phase->PendingBuy_entered_at, now) > limit
                ==> next.phase is Empty && !task.guard_after_timer(
                guard,
                params,
                now,
            ).token_slots.contains(task.market.key)
            &&& task.phase is PendingSell && elapsed(task.phase->PendingSell_entered_at, now)
                > limit ==> next.phase == (Phase::Holding {
                token: task.phase->PendingSell_token,
                buy_price: task.phase->PendingSell_buy_price,
                amount: task.phase->PendingSell_amount,
            })
            &&& task.phase is PendingBuy && elapsed(task.phase->PendingBuy_entered_at, now) <= limit
                ==> next == task && task.guard_after_timer(guard, params, now) == guard
            &&& task.phase is PendingSell && elapsed(task.phase->PendingSell_entered_at, now)
                <= limit ==> next == task && task.guard_after_timer(guard, params, now) == guard
            &&& !task.phase.is_pending() ==> next == task
        }),
{
}

/// No tick leaves a position pending for longer than the watchdog allows. A purchase that was
/// pending for longer counts as none, with its slot free again unless the same tick fires a new
/// one, and a sale that was pending for longer as what was held before it.
pub proof fn law_no_tick_leaves_what_is_stuck(
    task: TaskState,
    guard: GuardState,
    params: EngineParams,
    tick: Tick,
    now: u128,
)
    ensures
        ({
            let limit = params.pending_watchdog_secs * NANOS_PER_SEC;
            let unlocked = task.after_timer(params, now);
            let freed = task.guard_after_timer(guard, params, now);
            let v = unlocked.tick_verdict(freed, params, tick, now);
            let next = unlocked.after_tick(v, now).phase;
            &&& next is PendingBuy ==> elapsed(next->PendingBuy_entered_at, now) <= limit
            &&& next is PendingSell ==> elapsed(next->PendingSell_entered_at, now) <= limit
            &&& task.phase is PendingBuy && elapsed(task.phase->PendingBuy_entered_at, now) > limit
                ==> unlocked.phase is Empty && (v is Skip ==> next is Empty && !guard_after(
                freed,
                task.market,
                v,
            ).token_slots.contains(task.market.key))
            &&& task.phase is PendingSell && elapsed(task.phase->PendingSell_entered_at, now)
                > limit && v is Fire ==> v->signal.side == OrderSide::Sell && v->token
                == task.phase->PendingSell_token && next->PendingSell_amount
                == task.phase->PendingSell_amount
        }),
{
}

/// A failed order is followed by a cooldown in which no order is fired.
pub proof fn law_a_failure_starts_a_cooldown(
    task: TaskState,
    report: Report,
    failed_at: u128,
    guard: GuardState,
    params: EngineParams,
    tick: Tick,
    now: u128,
)
    requires
        fill_outcome(task.phase, report) is BuyFailed || fill_outcome(task.phase, report)
            is SellFailed,
        elapsed(failed_at, now) < params.order_fail_cooldown_secs * NANOS_PER_SEC,
    ensures
        cools_down(
            task.after_fill(report, failed_at).last_order_fail,
            now,
            params.order_fail_cooldown_secs,
        ),
        task.after_fill(report, failed_at).tick_verdict(guard, params, tick, now) is Skip,
{
}

/// A filled purchase adds to the spend exactly what the fill cost, but no more than had been
/// reserved for it (where the decimals hold the sums and differences without rounding).
pub proof fn law_a_filled_purchase_costs_its_fill(
    before: GuardState,
    ordered: Decimals,
    reserved: GuardState,
    reservation: BudgetReservation,
    task: TaskState,
    report: Report,
    filled: Decimals,
    drawdown_ratio: Scalar,
    after: GuardState,
)
    requires
        before.spent.valid(),
        before.spent@ >= 0,
        before.reserves(ordered.price, ordered.size, reserved, Ok(reservation)),
        fill_outcome(task.phase, report) is Entered,
        report.reservation == Some(reservation),
        task.fill_guards(reserved, report, filled, drawdown_ratio, after),
        ({
            let cost = Amount::product(
                GuardState::or_zero(filled.price),
                GuardState::or_zero(filled.size),
            )->0;
            &&& 0 <= cost@
            &&& crate::decimal::representable(before.spent@ + reservation.reserved()@)
            &&& crate::decimal::representable(reservation.reserved()@ - cost@)
            &&& crate::decimal::representable(
                before.spent@ + smaller_of(reservation.reserved()@, cost@),
            )
        }),
    ensures
        after.spent@ == before.spent@ + smaller_of(
            reservation.reserved()@,
            Amount::product(
                GuardState::or_zero(filled.price),
                GuardState::or_zero(filled.size),
            )->0@,
        ),
{
    crate::risk::guard::law_refund_leaves_actual_cost(
        before,
        ordered.price,
        ordered.size,
        reserved,
        reservation,
        filled.price,
        filled.size,
        GuardState { frozen: reserved.frozen, ..after },
    );
}

/// What a report does to the position. A filled purchase is held at its price and in its size. A
/// failed one leaves nothing. After a sale what is left is held on, at the price at which it was
/// bought, and nothing only where nothing is left, whatever size was filled. A failed sale leaves
/// what was held. A failure starts the cooldown, and a fill ends it. Any other report changes
/// nothing, and none changes the market or the count of the ticks.
pub proof fn law_a_report_leaves_what_is_there(task: TaskState, report: Report, now: u128)
    ensures
        ({
            let next = task.after_fill(report, now);
            let outcome = fill_outcome(task.phase, report);
            let buys = report.side == OrderSide::Buy;
            let sells = report.side == OrderSide::Sell;
            &&& next.market == task.market
            &&& next.tick_count == task.tick_count
            &&& (task.phase is PendingBuy || task.phase is Empty) && buys && report.success ==> {
                &&& outcome is Entered
                &&& next.phase == (Phase::Holding {
                    token: report.token,
                    buy_price: report.price,
                    amount: report.size,
                })
                &&& next.last_order_fail is None
            }
            &&& task.phase is PendingBuy && buys && !report.success ==> {
                &&& outcome is BuyFailed
                &&& outcome->announced == (report.reservation is Some || report.size.positive())
                &&& next.phase is Empty
                &&& next.last_order_fail == Some(now)
            }
            &&& task.phase is PendingSell && sells && report.success ==> {
                &&& outcome is Exited
                &&& report.synced_position.positive() ==> next.phase == (Phase::Holding {
                    token: task.phase->PendingSell_token,
                    buy_price: task.phase->PendingSell_buy_price,
                    amount: report.synced_position,
                })
                &&& !report.synced_position.positive() ==> next.phase is Empty
                &&& next.last_order_fail is None
            }
            &&& task.phase is PendingSell && sells && !report.success ==> {
                &&& outcome is SellFailed
                &&& next.phase == (Phase::Holding {
                    token: task.phase->PendingSell_token,
                    buy_price: task.phase->PendingSell_buy_price,
                    amount: task.phase->PendingSell_amount,
                })
                &&& next.last_order_fail == Some(now)
            }
            &&& task.phase is Holding || (task.phase is Empty && !(buys && report.success)) || (
            task.phase is PendingBuy && sells) || (task.phase is PendingSell && buys) ==> outcome
                is Ignored && next == task
        }),
{
}

/// What a report does to the guard, budget aside. A fill moves the breaker by the drawdown and
/// leaves the slots alone, a failed purchase frees the slot of its market and of no other, and any
/// other report changes nothing; only a filled purchase with a reservation moves the spend.
pub proof fn law_a_report_moves_the_guard(
    task: TaskState,
    pre: GuardState,
    report: Report,
    decimals: Decimals,
    drawdown_ratio: Scalar,
    post: GuardState,
    other: Seq<char>,
)
    requires
        task.fill_guards(pre, report, decimals, drawdown_ratio, post),
    ensures
        ({
            let buys = report.side == OrderSide::Buy;
            let sells = report.side == OrderSide::Sell;
            let entered = (task.phase is PendingBuy || task.phase is Empty) && buys
                && report.success;
            let exited = task.phase is PendingSell && sells && report.success;
            let failed = task.phase is PendingBuy && buys && !report.success;
            &&& post.max_budget == pre.max_budget
            &&& post.cap == pre.cap
            &&& post.buy_in_flight == pre.buy_in_flight
            &&& entered || exited ==> post.frozen == pre.frozen_at(drawdown_ratio)
                && post.token_slots == pre.token_slots
            &&& failed ==> !post.token_slots.contains(task.market.key)
            &&& other != task.market.key ==> post.token_slots.contains(other)
                == pre.token_slots.contains(other)
            &&& !failed ==> post.token_slots == pre.token_slots
            &&& !(entered || exited) ==> post.frozen == pre.frozen
            &&& !(entered && report.reservation is Some) ==> post.spent == pre.spent
            &&& !(entered || exited || failed) ==> post == pre
        }),
{
}

/// Every report can be taken but that of a filled purchase whose budget the decimals cannot hold.
pub proof fn law_only_a_filled_purchase_asks_the_budget(
    task: TaskState,
    guard: GuardState,
    report: Report,
    decimals: Decimals,
)
    ensures
        report.side == OrderSide::Sell || !report.success || report.reservation is None
            || task.phase is Holding || task.phase is PendingSell ==> task.can_fill(
            guard,
            report,
            decimals,
        ),
        guard.can_refund_delta(
            report.reservation->0.reserved(),
            decimals.price,
            decimals.size,
        ) ==> task.can_fill(guard, report, decimals),
{
}

/// A market starts with what is held of it: of the yes token where anything is, else of the no
/// token, at no cost, and with nothing only where nothing is held.
pub proof fn law_a_market_starts_with_what_is_held(
    yes: Seq<char>,
    no: Seq<char>,
    pos_yes: Scalar,
    pos_no: Scalar,
)
    ensures
        ({
            let first = first_phase(yes, no, pos_yes, pos_no);
            &&& pos_yes.positive() ==> first == (Phase::Holding {
                token: yes,
                buy_price: Scalar::of(0),
                amount: pos_yes,
            })
            &&& !pos_yes.positive() && pos_no.positive() ==> first == (Phase::Holding {
                token: no,
                buy_price: Scalar::of(0),
                amount: pos_no,
            })
            &&& !pos_yes.positive() && !pos_no.positive() ==> first is Empty
        }),
{
}

/// The timer touches the position alone, and of the guard the slot of a purchase that it unlocks.
pub proof fn law_the_timer_touches_nothing_else(
    task: TaskState,
    guard: GuardState,
    params: EngineParams,
    now: u128,
    other: Seq<char>,
)
    ensures
        ({
            let next = task.after_timer(params, now);
            let freed = task.guard_after_timer(guard, params, now);
            &&& next.market == task.market
            &&& next.tick_count == task.tick_count
            &&& next.last_order_fail == task.last_order_fail
            &&& freed == (GuardState { token_slots: freed.token_slots, ..guard })
            &&& other != task.market.key ==> freed.token_slots.contains(other)
                == guard.token_slots.contains(other)
            &&& !(task.phase is PendingBuy) ==> freed == guard
        }),
{
}

/// A tick is counted, and changes neither the market nor the time of the last failure; it is
/// decided by the position and by the time of that failure.
pub proof fn law_a_tick_is_counted(
    task: TaskState,
    guard: GuardState,
    params: EngineParams,
    tick: Tick,
    now: u128,
)
    requires
        task.tick_count < u64::MAX,
    ensures
        ({
            let v = task.tick_verdict(guard, params, tick, now);
            let next = task.after_tick(v, now);
            &&& v == verdict(
                task.phase,
                guard,
                task.market,
                params,
                tick,
                task.last_order_fail,
                now,
            )
            &&& next.tick_count == task.tick_count + 1
            &&& next.market == task.market
            &&& next.last_order_fail == task.last_order_fail
            &&& v is Skip ==> next.phase == task.phase
            &&& v is Fire && task.phase is Empty ==> next.phase == (Phase::PendingBuy {
                token: v->token,
                entered_at: now,
            })
            &&& v is Fire && task.phase is Holding ==> next.phase == (Phase::PendingSell {
                token: task.phase->Holding_token,
                buy_price: task.phase->Holding_buy_price,
                amount: task.phase->Holding_amount,
                amount_trying_to_sell: v->signal.size,
                entered_at: now,
            })
        }),
{
}

/// What the exchange reports goes before what the ledger knows, whatever that is; without a report
/// it is what the ledger knows where that is above zero, and nothing where it is not.
pub proof fn law_the_exchange_goes_before_the_ledger(reported: Scalar, local_net: Scalar)
    ensures
        synced(Some(reported), local_net) == reported,
        local_net.positive() ==> synced(None, local_net) == local_net,
        !local_net.positive() ==> Scalar::of(0).at_most(synced(None, local_net)) && !synced(
            None,
            local_net,
        ).positive(),
{
}

} // verus!
