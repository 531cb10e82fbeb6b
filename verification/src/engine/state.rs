//! The position of one market and the decision that a tick leads to.
use crate::decimal::Amount;
use crate::engine::params::EngineParams;
use crate::models::types::OrderSide;
use crate::risk::guard::{GuardState, RiskGuard};
use crate::risk::inventory::{entry_of, InventoryManager, MarketExposure};
use crate::scalar::{Scalar, LOWEST, ONE};
use crate::strategy::sniper::SnipeSignal;
use crate::text::same_text;
use vstd::prelude::*;

verus! {

/// Nanoseconds in a second.
pub const NANOS_PER_SEC: u128 = 1_000_000_000;

/// The bits of -0.01: an edge above this is worth a line of the monitor.
pub const INTERESTING_EDGE: u64 = 0xbf84_7ae1_47ae_147b;

/// Nanoseconds from `since` to `now`, none where the clock has not moved on.
pub open spec fn elapsed(since: u128, now: u128) -> int {
    if now > since {
        now - since
    } else {
        0
    }
}

pub(crate) fn nanos_between(since: u128, now: u128) -> (r: u128)
    ensures
        r == elapsed(since, now),
{
    if now > since {
        now - since
    } else {
        0
    }
}

/// What the engine holds or waits for in one market. Times are nanoseconds of a clock that does
/// not go back.
pub enum PositionState {
    Empty,
    PendingBuy { token_id: String, entered_at: u128 },
    Holding { token_id: String, buy_price: Scalar, amount: Scalar },
    PendingSell {
        token_id: String,
        buy_price: Scalar,
        amount: Scalar,
        amount_trying_to_sell: Scalar,
        entered_at: u128,
    },
}

/// A [`PositionState`] with its token as a sequence of characters.
pub enum Phase {
    Empty,
    PendingBuy { token: Seq<char>, entered_at: u128 },
    Holding { token: Seq<char>, buy_price: Scalar, amount: Scalar },
    PendingSell {
        token: Seq<char>,
        buy_price: Scalar,
        amount: Scalar,
        amount_trying_to_sell: Scalar,
        entered_at: u128,
    },
}

impl View for PositionState {
    type V = Phase;

    open spec fn view(&self) -> Phase {
        match *self {
            PositionState::Empty => Phase::Empty,
            PositionState::PendingBuy { token_id, entered_at } => Phase::PendingBuy {
                token: token_id@,
                entered_at,
            },
            PositionState::Holding { token_id, buy_price, amount } => Phase::Holding {
                token: token_id@,
                buy_price,
                amount,
            },
            PositionState::PendingSell {
                token_id,
                buy_price,
                amount,
                amount_trying_to_sell,
                entered_at,
            } => Phase::PendingSell {
                token: token_id@,
                buy_price,
                amount,
                amount_trying_to_sell,
                entered_at,
            },
        }
    }
}

impl Phase {
    /// An order is on its way.
    pub open spec fn is_pending(self) -> bool {
        self is PendingBuy || self is PendingSell
    }
}

/// The two tokens of a market and the key of its buy slot.
pub struct Market {
    pub yes_token_id: String,
    pub no_token_id: String,
    pub market_key: String,
}

/// A [`Market`] with its names as sequences of characters.
pub struct MarketNames {
    pub yes: Seq<char>,
    pub no: Seq<char>,
    pub key: Seq<char>,
}

impl View for Market {
    type V = MarketNames;

    open spec fn view(&self) -> MarketNames {
        MarketNames {
            yes: self.yes_token_id@,
            no: self.no_token_id@,
            key: self.market_key@,
        }
    }
}

impl MarketNames {
    /// The token of one outcome.
    pub open spec fn token(self, is_yes: bool) -> Seq<char> {
        if is_yes {
            self.yes
        } else {
            self.no
        }
    }
}

/// What a ledger holds of the yes token and of the no token of a market.
pub open spec fn held_of(ledger: Map<Seq<char>, MarketExposure>, market: MarketNames) -> (
    Amount,
    Amount,
) {
    (entry_of(ledger, market.yes).yes_qty, entry_of(ledger, market.no).yes_qty)
}

/// What is held of the yes token and of the no token. A fill is booked as yes quantity of the
/// token that was bought, whichever outcome that is.
pub fn held_quantities(inventory: &InventoryManager, market: &Market) -> (r: (Amount, Amount))
    ensures
        r == held_of(inventory@, market@),
        r.0 == entry_of(inventory@, market@.yes).yes_qty,
        r.1 == entry_of(inventory@, market@.no).yes_qty,
{
    (
        inventory.get_exposure_qty(market.yes_token_id.as_str()).0,
        inventory.get_exposure_qty(market.no_token_id.as_str()).0,
    )
}

/// One outcome of the market as a tick finds it.
#[derive(Clone, Copy, Debug)]
pub struct SideQuote {
    pub best_ask: Scalar,
    pub best_bid: Scalar,
    pub fair_value: Scalar,
    /// The fair value less the ask.
    pub fair_less_ask: Scalar,
    /// The bid less the fair value.
    pub bid_less_fair: Scalar,
    /// The bid less the price at which the position was bought.
    pub bid_less_cost: Scalar,
    /// Whole shares that the money for one trade buys at the ask.
    pub shares: Scalar,
    /// What those shares cost.
    pub notional: Scalar,
    /// Decimal value of what is held of the token.
    pub held: Option<Amount>,
    /// Decimal value of what would be held of the token with those shares.
    pub held_after: Option<Amount>,
}

/// All that a tick decides on.
#[derive(Clone, Copy, Debug)]
pub struct Tick {
    pub yes: SideQuote,
    pub no: SideQuote,
    /// What is held of the token in hand.
    pub current_position: Scalar,
    pub max_budget: Scalar,
    /// The budget less what is spent, not below zero.
    pub available_cash: Scalar,
    /// Decimal value of the money for one trade.
    pub snipe_size: Option<Amount>,
    pub is_relative_strike: bool,
}

impl SideQuote {
    /// What buying at the ask is ahead of the fair value; the lowest value without an ask.
    pub open spec fn buy_edge(self) -> Scalar {
        if self.best_ask.positive() {
            self.fair_less_ask
        } else {
            Scalar::of(LOWEST)
        }
    }

    /// What selling at the bid is ahead of the fair value; the lowest value without a bid.
    pub open spec fn sell_edge(self) -> Scalar {
        if self.best_bid.positive() {
            self.bid_less_fair
        } else {
            Scalar::of(LOWEST)
        }
    }

    /// The edge is above the threshold, and the ask above zero and not above the price cap.
    pub open spec fn is_attractive(self, threshold: Scalar, max_buy_price: Scalar) -> bool {
        &&& threshold.below(self.buy_edge())
        &&& self.best_ask.positive()
        &&& self.best_ask.at_most(max_buy_price)
    }

    fn edges(&self) -> (r: (Scalar, Scalar))
        ensures
            r.0 == self.buy_edge(),
            r.1 == self.sell_edge(),
    {
        let buy = if self.best_ask.is_positive() {
            self.fair_less_ask
        } else {
            Scalar::from_bits(LOWEST)
        };
        let sell = if self.best_bid.is_positive() {
            self.bid_less_fair
        } else {
            Scalar::from_bits(LOWEST)
        };
        (buy, sell)
    }
}

/// Fair values and edges of both outcomes: fair value of yes and of no, buy edge of yes and of
/// no, sell edge of yes and of no.
pub fn compute_edges_dual(yes: &SideQuote, no: &SideQuote) -> (r: (
    Scalar,
    Scalar,
    Scalar,
    Scalar,
    Scalar,
    Scalar,
))
    ensures
        r.0 == yes.fair_value,
        r.1 == no.fair_value,
        r.2 == yes.buy_edge(),
        r.3 == no.buy_edge(),
        r.4 == yes.sell_edge(),
        r.5 == no.sell_edge(),
{
    let y = yes.edges();
    let n = no.edges();
    (yes.fair_value, no.fair_value, y.0, n.0, y.1, n.1)
}

/// Why a tick leads to no order.
#[derive(Clone, Copy, Debug, PartialEq, Eq, Structural)]
pub enum SkipReason {
    Hibernating,
    CoolingDown,
    Frozen,
    NoEdge,
    BudgetTooSmall,
    NotionalTooSmall,
    ExposureLimit,
    GlobalSlotTaken,
    MarketSlotTaken,
    Unaffordable,
    NoExit,
    OrderPending,
}

/// An order that is to be fired.
pub struct FireOrder {
    pub token_id: String,
    pub signal: SnipeSignal,
    pub edge: Scalar,
}

/// What a tick leads to.
pub enum Decision {
    Skip(SkipReason),
    Fire(FireOrder),
}

/// A [`Decision`] with its token as a sequence of characters.
pub enum Verdict {
    Skip(SkipReason),
    Fire { token: Seq<char>, signal: SnipeSignal, edge: Scalar },
}

impl View for Decision {
    type V = Verdict;

    open spec fn view(&self) -> Verdict {
        match *self {
            Decision::Skip(reason) => Verdict::Skip(reason),
            Decision::Fire(order) => Verdict::Fire {
                token: order.token_id@,
                signal: order.signal,
                edge: order.edge,
            },
        }
    }
}

impl Tick {
    /// One outcome of the market.
    pub open spec fn quote(self, is_yes: bool) -> SideQuote {
        if is_yes {
            self.yes
        } else {
            self.no
        }
    }

    /// What would be held of the yes token and of the no token with the shares of one outcome.
    pub open spec fn projected(self, is_yes: bool) -> (Option<Amount>, Option<Amount>) {
        if is_yes {
            (self.yes.held_after, self.no.held)
        } else {
            (self.yes.held, self.no.held_after)
        }
    }

    /// The outcome to buy: the attractive one, yes where both are and its edge is not the
    /// smaller.
    pub open spec fn side_to_buy(self, params: EngineParams) -> Option<bool> {
        let threshold = params.threshold(self.is_relative_strike);
        if self.no.buy_edge().at_most(self.yes.buy_edge()) && self.yes.is_attractive(
            threshold,
            params.max_buy_price,
        ) {
            Some(true)
        } else if self.no.is_attractive(threshold, params.max_buy_price) {
            Some(false)
        } else {
            None
        }
    }
}

/// Whether an order failed less than `secs` seconds ago.
pub open spec fn cools_down(last_order_fail: Option<u128>, now: u128, secs: u64) -> bool {
    match last_order_fail {
        Some(t) => elapsed(t, now) < secs * NANOS_PER_SEC,
        None => false,
    }
}

/// What holds back every order, if anything: less than one dollar left while nothing is held,
/// or an order that failed a moment ago.
pub open spec fn held_back(
    phase: Phase,
    params: EngineParams,
    tick: Tick,
    last_order_fail: Option<u128>,
    now: u128,
) -> Option<SkipReason> {
    if phase is Empty && tick.max_budget.positive() && tick.available_cash.below(Scalar::of(ONE)) {
        Some(SkipReason::Hibernating)
    } else if cools_down(last_order_fail, now, params.order_fail_cooldown_secs) {
        Some(SkipReason::CoolingDown)
    } else {
        None
    }
}

/// The outcome to buy, or what stands against a purchase before the budget is asked.
pub open spec fn buy_gate(
    guard: GuardState,
    market: MarketNames,
    params: EngineParams,
    tick: Tick,
) -> Result<bool, SkipReason> {
    if guard.frozen {
        Err(SkipReason::Frozen)
    } else {
        match tick.side_to_buy(params) {
            None => Err(SkipReason::NoEdge),
            Some(is_yes) => {
                let quote = tick.quote(is_yes);
                if quote.shares.below(Scalar::of(ONE)) {
                    Err(SkipReason::BudgetTooSmall)
                } else if quote.notional.below(Scalar::of(ONE)) {
                    Err(SkipReason::NotionalTooSmall)
                } else if guard.exposure_verdict(
                    tick.projected(is_yes).0,
                    tick.projected(is_yes).1,
                ) is Err {
                    Err(SkipReason::ExposureLimit)
                } else if guard.buy_in_flight {
                    Err(SkipReason::GlobalSlotTaken)
                } else if guard.token_slots.contains(market.key) {
                    Err(SkipReason::MarketSlotTaken)
                } else {
                    Ok(is_yes)
                }
            },
        }
    }
}

/// What an empty position leads to.
pub open spec fn buy_verdict(
    guard: GuardState,
    market: MarketNames,
    params: EngineParams,
    tick: Tick,
) -> Verdict {
    match buy_gate(guard, market, params, tick) {
        Err(reason) => Verdict::Skip(reason),
        Ok(is_yes) => {
            let quote = tick.quote(is_yes);
            if !guard.affords(Some(Amount::of(1, 0)), tick.snipe_size) {
                Verdict::Skip(SkipReason::Unaffordable)
            } else {
                Verdict::Fire {
                    token: market.token(is_yes),
                    signal: SnipeSignal {
                        side: OrderSide::Buy,
                        target_price: quote.best_ask,
                        size: quote.shares,
                    },
                    edge: quote.buy_edge(),
                }
            }
        },
    }
}

/// How much of a position can be sold: what was bought, but not more than what is there.
pub open spec fn sell_size(amount: Scalar, current_position: Scalar) -> Scalar {
    Scalar::larger(Scalar::smaller(amount, current_position), Scalar::of(0))
}

/// What a held position leads to.
pub open spec fn sell_verdict(
    token: Seq<char>,
    amount: Scalar,
    market: MarketNames,
    params: EngineParams,
    tick: Tick,
) -> Verdict {
    let quote = tick.quote(token == market.yes);
    let size = sell_size(amount, tick.current_position);
    if quote.best_bid.positive() && (params.exit_threshold.below(quote.sell_edge())
        || params.min_profit.below(quote.bid_less_cost)) && size.positive() {
        Verdict::Fire {
            token,
            signal: SnipeSignal { side: OrderSide::Sell, target_price: quote.best_bid, size },
            edge: quote.sell_edge(),
        }
    } else {
        Verdict::Skip(SkipReason::NoExit)
    }
}

/// What a tick leads to.
pub open spec fn verdict(
    phase: Phase,
    guard: GuardState,
    market: MarketNames,
    params: EngineParams,
    tick: Tick,
    last_order_fail: Option<u128>,
    now: u128,
) -> Verdict {
    match held_back(phase, params, tick, last_order_fail, now) {
        Some(reason) => Verdict::Skip(reason),
        None => match phase {
            Phase::Empty => buy_verdict(guard, market, params, tick),
            Phase::Holding { token, buy_price, amount } => sell_verdict(
                token,
                amount,
                market,
                params,
                tick,
            ),
            _ => Verdict::Skip(SkipReason::OrderPending),
        },
    }
}

/// Decimal arithmetic can hold what the budget is asked, where it is asked.
pub open spec fn can_decide(
    phase: Phase,
    guard: GuardState,
    market: MarketNames,
    params: EngineParams,
    tick: Tick,
    last_order_fail: Option<u128>,
    now: u128,
) -> bool {
    phase is Empty && held_back(phase, params, tick, last_order_fail, now) is None && buy_gate(
        guard,
        market,
        params,
        tick,
    ) is Ok ==> guard.can_price(Some(Amount::of(1, 0)), tick.snipe_size)
}

/// The position once the verdict is acted on.
pub open spec fn phase_after(phase: Phase, verdict: Verdict, now: u128) -> Phase {
    match verdict {
        Verdict::Skip(_) => phase,
        Verdict::Fire { token, signal, edge } => match phase {
            Phase::Holding { token: held, buy_price, amount } => Phase::PendingSell {
                token: held,
                buy_price,
                amount,
                amount_trying_to_sell: signal.size,
                entered_at: now,
            },
            _ => Phase::PendingBuy { token, entered_at: now },
        },
    }
}

/// The guard once the verdict is acted on: a purchase takes both buy slots.
pub open spec fn guard_after(guard: GuardState, market: MarketNames, verdict: Verdict) -> GuardState {
    match verdict {
        Verdict::Fire { token, signal, edge } => if signal.side == OrderSide::Buy {
            GuardState {
                buy_in_flight: true,
                token_slots: guard.token_slots.insert(market.key),
                ..guard
            }
        } else {
            guard
        },
        Verdict::Skip(_) => guard,
    }
}

fn check_held_back(
    is_empty: bool,
    params: &EngineParams,
    tick: &Tick,
    last_order_fail: Option<u128>,
    now: u128,
) -> (r: Option<SkipReason>)
    ensures
        forall|phase: Phase|
            phase is Empty == is_empty ==> r == #[trigger] held_back(
                phase,
                *params,
                *tick,
                last_order_fail,
                now,
            ),
{
    if is_empty && tick.max_budget.is_positive() && tick.available_cash.lt(&Scalar::from_bits(ONE)) {
        return Some(SkipReason::Hibernating);
    }
    if let Some(t) = last_order_fail {
        if nanos_between(t, now) < params.order_fail_cooldown_secs as u128 * NANOS_PER_SEC {
            return Some(SkipReason::CoolingDown);
        }
    }
    None
}

fn find_side_to_buy(params: &EngineParams, tick: &Tick) -> (r: Option<bool>)
    ensures
        r == tick.side_to_buy(*params),
{
    let threshold = params.enter_threshold_effective(tick.is_relative_strike);
    let (_, _, edge_yes, edge_no, _, _) = compute_edges_dual(&tick.yes, &tick.no);
    if edge_no.le(&edge_yes) && threshold.lt(&edge_yes) && tick.yes.best_ask.is_positive()
        && tick.yes.best_ask.le(&params.max_buy_price) {
        Some(true)
    } else if threshold.lt(&edge_no) && tick.no.best_ask.is_positive() && tick.no.best_ask.le(
        &params.max_buy_price,
    ) {
        Some(false)
    } else {
        None
    }
}

/// What stands against a purchase before the slots are taken.
fn check_buy(guard: &RiskGuard, params: &EngineParams, tick: &Tick) -> (r: Result<bool, SkipReason>)
    ensures
        r matches Err(reason) ==> forall|market: MarketNames| #[trigger]
            buy_gate(guard@, market, *params, *tick) == Err::<bool, SkipReason>(reason),
        r is Ok ==> forall|market: MarketNames| #[trigger]
            buy_gate(guard@, market, *params, *tick) == (if guard@.buy_in_flight {
                Err(SkipReason::GlobalSlotTaken)
            } else if guard@.token_slots.contains(market.key) {
                Err(SkipReason::MarketSlotTaken)
            } else {
                r
            }),
{
    if guard.is_frozen() {
        return Err(SkipReason::Frozen);
    }
    let is_yes = match find_side_to_buy(params, tick) {
        Some(side) => side,
        None => {
            return Err(SkipReason::NoEdge);
        },
    };
    let quote = if is_yes {
        tick.yes
    } else {
        tick.no
    };
    let one = Scalar::from_bits(ONE);
    if quote.shares.lt(&one) {
        return Err(SkipReason::BudgetTooSmall);
    }
    if quote.notional.lt(&one) {
        return Err(SkipReason::NotionalTooSmall);
    }
    let (yes_after, no_after) = if is_yes {
        (tick.yes.held_after, tick.no.held)
    } else {
        (tick.yes.held, tick.no.held_after)
    };
    if guard.check_market_exposure(yes_after, no_after).is_err() {
        return Err(SkipReason::ExposureLimit);
    }
    Ok(is_yes)
}

/// Decides on a purchase and takes both buy slots for it.
fn decide_buy(
    guard: &mut RiskGuard,
    market: &Market,
    params: &EngineParams,
    tick: &Tick,
) -> (r: Decision)
    requires
        buy_gate(old(guard)@, market@, *params, *tick) is Ok ==> old(guard)@.can_price(
            Some(Amount::of(1, 0)),
            tick.snipe_size,
        ),
    ensures
        r@ == buy_verdict(old(guard)@, market@, *params, *tick),
        final(guard)@ == guard_after(old(guard)@, market@, r@),
{
    let ghost before = guard@;
    let is_yes = match check_buy(guard, params, tick) {
        Ok(side) => side,
        Err(reason) => {
            return Decision::Skip(reason);
        },
    };
    let gate_open: bool = guard.try_acquire_global_buy_slot();
    if !gate_open {
        return Decision::Skip(SkipReason::GlobalSlotTaken);
    }
    if !guard.try_acquire_token_buy_slot(market.market_key.as_str()) {
        guard.release_global_buy_slot();
        assert(before.token_slots.insert(market@.key) =~= before.token_slots);
        return Decision::Skip(SkipReason::MarketSlotTaken);
    }
    if !guard.can_afford(Some(Amount::one()), tick.snipe_size) {
        guard.release_global_buy_slot();
        guard.release_token_buy_slot(market.market_key.as_str());
        assert(before.token_slots.insert(market@.key).remove(market@.key) =~= before.token_slots);
        return Decision::Skip(SkipReason::Unaffordable);
    }
    let quote = if is_yes {
        tick.yes
    } else {
        tick.no
    };
    let token_id = if is_yes {
        market.yes_token_id.clone()
    } else {
        market.no_token_id.clone()
    };
    Decision::Fire(
        FireOrder {
            token_id,
            signal: SnipeSignal {
                side: OrderSide::Buy,
                target_price: quote.best_ask,
                size: quote.shares,
            },
            edge: quote.edges().0,
        },
    )
}

fn decide_sell(
    token_id: &str,
    amount: Scalar,
    market: &Market,
    params: &EngineParams,
    tick: &Tick,
) -> (r: Decision)
    ensures
        r@ == sell_verdict(token_id@, amount, market@, *params, *tick),
{
    let quote = if same_text(token_id, market.yes_token_id.as_str()) {
        tick.yes
    } else {
        tick.no
    };
    let edge = quote.edges().1;
    if quote.best_bid.is_positive() && (params.exit_threshold.lt(&edge) || params.min_profit.lt(
        &quote.bid_less_cost,
    )) {
        let size = amount.min(&tick.current_position).max(&Scalar::zero());
        if size.is_positive() {
            return Decision::Fire(
                FireOrder {
                    token_id: token_id.to_owned(),
                    signal: SnipeSignal {
                        side: OrderSide::Sell,
                        target_price: quote.best_bid,
                        size,
                    },
                    edge,
                },
            );
        }
    }
    Decision::Skip(SkipReason::NoExit)
}

/// Decides what a tick leads to. A purchase takes both buy slots of the guard; every order moves
/// the position to a pending state that started at `now`.
pub fn evaluate_and_act(
    state: &mut PositionState,
    guard: &mut RiskGuard,
    market: &Market,
    params: &EngineParams,
    tick: &Tick,
    last_order_fail: Option<u128>,
    now: u128,
) -> (r: Decision)
    requires
        can_decide(old(state)@, old(guard)@, market@, *params, *tick, last_order_fail, now),
    ensures
        r@ == verdict(
            old(state)@,
            old(guard)@,
            market@,
            *params,
            *tick,
            last_order_fail,
            now,
        ),
        final(state)@ == phase_after(old(state)@, r@, now),
        final(guard)@ == guard_after(old(guard)@, market@, r@),
{
    let is_empty: bool = matches!(state, PositionState::Empty);
    if let Some(reason) = check_held_back(is_empty, params, tick, last_order_fail, now) {
        return Decision::Skip(reason);
    }
    let (decision, next) = match &*state {
        PositionState::Empty => {
            let decision = decide_buy(guard, market, params, tick);
            let next = match &decision {
                Decision::Fire(order) => Some(
                    PositionState::PendingBuy { token_id: order.token_id.clone(), entered_at: now },
                ),
                Decision::Skip(_) => None,
            };
            (decision, next)
        },
        PositionState::Holding { token_id, buy_price, amount } => {
            let decision = decide_sell(token_id.as_str(), *amount, market, params, tick);
            let next = match &decision {
                Decision::Fire(order) => Some(
                    PositionState::PendingSell {
                        token_id: token_id.clone(),
                        buy_price: *buy_price,
                        amount: *amount,
                        amount_trying_to_sell: order.signal.size,
                        entered_at: now,
                    },
                ),
                Decision::Skip(_) => None,
            };
            (decision, next)
        },
        _ => (Decision::Skip(SkipReason::OrderPending), None),
    };
    if let Some(pending) = next {
        *state = pending;
    }
    decision
}

/// [`evaluate_and_act`] where decimal arithmetic can hold what the budget is asked; `None`, and
/// nothing done, where it cannot.
pub fn try_evaluate_and_act(
    state: &mut PositionState,
    guard: &mut RiskGuard,
    market: &Market,
    params: &EngineParams,
    tick: &Tick,
    last_order_fail: Option<u128>,
    now: u128,
) -> (r: Option<Decision>)
    ensures
        r is Some <==> can_decide(
            old(state)@,
            old(guard)@,
            market@,
            *params,
            *tick,
            last_order_fail,
            now,
        ),
        r matches Some(decision) ==> {
            &&& decision@ == verdict(
                old(state)@,
                old(guard)@,
                market@,
                *params,
                *tick,
                last_order_fail,
                now,
            )
            &&& final(state)@ == phase_after(old(state)@, decision@, now)
            &&& final(guard)@ == guard_after(old(guard)@, market@, decision@)
        },
        r is None ==> final(state)@ == old(state)@ && final(guard)@ == old(guard)@,
{
    let is_empty: bool = matches!(state, PositionState::Empty);
    if is_empty && check_held_back(is_empty, params, tick, last_order_fail, now).is_none() {
        if check_buy(guard, params, tick).is_ok() && !guard.is_global_buy_in_flight()
            && !guard.is_token_buy_in_flight(market.market_key.as_str()) {
            if guard.try_can_afford(Some(Amount::one()), tick.snipe_size).is_none() {
                return None;
            }
        }
    }
    Some(evaluate_and_act(state, guard, market, params, tick, last_order_fail, now))
}

/// Whether the tick is one at which the monitor speaks.
pub fn monitor_is_due(tick_count: u64, interval: u64) -> (r: bool)
    requires
        interval > 0,
    ensures
        r == (tick_count as int % interval as int == 0),
{
    tick_count % interval == 0
}

/// Whether the tick is one at which the hibernation is announced.
pub fn hibernation_notice_is_due(tick_count: u64) -> (r: bool)
    ensures
        r == (tick_count as int % 1000 == 0),
{
    tick_count % 1000 == 0
}

/// Whether an edge is worth a line of the monitor.
pub fn is_interesting(edge_yes: Scalar, edge_no: Scalar) -> (r: bool)
    ensures
        r == (Scalar::of(INTERESTING_EDGE).below(edge_yes) || Scalar::of(INTERESTING_EDGE).below(
            edge_no,
        )),
{
    let least = Scalar::from_bits(INTERESTING_EDGE);
    least.lt(&edge_yes) || least.lt(&edge_no)
}

/// While an order is on its way no other one is fired, and nothing changes.
pub proof fn law_no_order_while_one_is_pending(
    phase: Phase,
    guard: GuardState,
    market: MarketNames,
    params: EngineParams,
    tick: Tick,
    last_order_fail: Option<u128>,
    now: u128,
)
    requires
        phase.is_pending(),
    ensures
        ({
            let v = verdict(phase, guard, market, params, tick, last_order_fail, now);
            &&& v is Skip
            &&& phase_after(phase, v, now) == phase
            &&& guard_after(guard, market, v) == guard
        }),
{
}

/// A purchase is fired only from an empty position, outside a cooldown, with a dollar or more to
/// spend, while buying is not frozen and both slots are free, at a price above zero and not above
/// the cap, with an edge above the threshold, within the exposure cap and with room in the budget.
pub proof fn law_purchases_obey_every_limit(
    phase: Phase,
    guard: GuardState,
    market: MarketNames,
    params: EngineParams,
    tick: Tick,
    last_order_fail: Option<u128>,
    now: u128,
)
    ensures
        verdict(phase, guard, market, params, tick, last_order_fail, now) matches Verdict::Fire {
            token,
            signal,
            edge,
        } ==> signal.side == OrderSide::Buy ==> {
            let is_yes = tick.side_to_buy(params)->0;
            &&& phase is Empty
            &&& phase_after(phase, Verdict::Fire { token, signal, edge }, now)
                == (Phase::PendingBuy { token, entered_at: now })
            &&& token == market.yes || token == market.no
            &&& !guard.frozen
            &&& !guard.buy_in_flight
            &&& !guard.token_slots.contains(market.key)
            &&& !cools_down(last_order_fail, now, params.order_fail_cooldown_secs)
            &&& !(tick.max_budget.positive() && tick.available_cash.below(Scalar::of(ONE)))
            &&& signal.target_price.positive()
            &&& signal.target_price.at_most(params.max_buy_price)
            &&& params.threshold(tick.is_relative_strike).below(edge)
            &&& guard.exposure_verdict(
                tick.projected(is_yes).0,
                tick.projected(is_yes).1,
            ) is Ok
            &&& guard.affords(Some(Amount::of(1, 0)), tick.snipe_size)
        },
{
}

/// A sale is fired only for the token that is held, and for no more than was bought and is still
/// there.
pub proof fn law_sales_stay_within_the_position(
    phase: Phase,
    guard: GuardState,
    market: MarketNames,
    params: EngineParams,
    tick: Tick,
    last_order_fail: Option<u128>,
    now: u128,
)
    ensures
        verdict(phase, guard, market, params, tick, last_order_fail, now) matches Verdict::Fire {
            token,
            signal,
            edge,
        } ==> signal.side == OrderSide::Sell ==> {
            &&& phase is Holding
            &&& token == phase->Holding_token
            &&& signal.size.positive()
            &&& phase->Holding_amount.is_number() ==> signal.size.at_most(phase->Holding_amount)
            &&& tick.current_position.is_number() ==> signal.size.at_most(tick.current_position)
            &&& signal.target_price.positive()
        },
{
}

/// A tick moves an empty position only to a pending purchase and a held one only to a pending
/// sale of the same token, and no other.
pub proof fn law_ticks_follow_the_state_machine(
    phase: Phase,
    guard: GuardState,
    market: MarketNames,
    params: EngineParams,
    tick: Tick,
    last_order_fail: Option<u128>,
    now: u128,
)
    ensures
        ({
            let v = verdict(phase, guard, market, params, tick, last_order_fail, now);
            let next = phase_after(phase, v, now);
            &&& v is Fire && phase is Empty ==> next is PendingBuy
            &&& v is Fire && phase is Holding ==> next is PendingSell && next->PendingSell_token
                == phase->Holding_token && next->PendingSell_amount == phase->Holding_amount
                && next->PendingSell_buy_price == phase->Holding_buy_price
            &&& v is Fire ==> phase is Empty || phase is Holding
            &&& v is Skip ==> next == phase
        }),
{
}

/// Once a purchase is fired no market fires another one before the slot is freed.
pub proof fn law_one_purchase_at_a_time(
    phase: Phase,
    guard: GuardState,
    market: MarketNames,
    params: EngineParams,
    tick: Tick,
    last_order_fail: Option<u128>,
    now: u128,
    other_phase: Phase,
    other_market: MarketNames,
    other_tick: Tick,
    other_fail: Option<u128>,
    later: u128,
)
    ensures
        ({
            let first = verdict(phase, guard, market, params, tick, last_order_fail, now);
            let second = verdict(
                other_phase,
                guard_after(guard, market, first),
                other_market,
                params,
                other_tick,
                other_fail,
                later,
            );
            first is Fire && first->signal.side == OrderSide::Buy && second is Fire
                ==> second->signal.side == OrderSide::Sell
        }),
{
}

/// A purchase that would take what is held of one token beyond the exposure cap is not fired, and
/// the position and the slots stay as they are.
pub proof fn law_no_purchase_beyond_the_cap(
    phase: Phase,
    guard: GuardState,
    market: MarketNames,
    params: EngineParams,
    tick: Tick,
    last_order_fail: Option<u128>,
    now: u128,
)
    requires
        phase is Empty,
        guard.cap@ > 0,
        tick.side_to_buy(params) is Some,
        ({
            let after = tick.projected(tick.side_to_buy(params)->0);
            &&& GuardState::or_zero(after.0).valid()
            &&& GuardState::or_zero(after.1).valid()
            &&& {
                ||| GuardState::or_zero(after.0)@ > guard.cap@
                ||| GuardState::or_zero(after.1)@ > guard.cap@
            }
        }),
    ensures
        ({
            let v = verdict(phase, guard, market, params, tick, last_order_fail, now);
            &&& v is Skip
            &&& phase_after(phase, v, now) == phase
            &&& guard_after(guard, market, v) == guard
        }),
{
    let after = tick.projected(tick.side_to_buy(params)->0);
    crate::risk::guard::law_exposure_cap(guard, after.0, after.1);
}

/// From an empty position that nothing holds back, with buying not frozen, both slots free and
/// the limits on size, exposure and budget met, an outcome is bought whose edge is above the
/// threshold and whose own ask is above zero and not above the cap: the yes token where its edge
/// is not below that of the no token, and the no token where the yes token is not to be had or its
/// edge is the smaller. What the other outcome asks stands against neither.
pub proof fn law_a_good_purchase_is_fired(
    guard: GuardState,
    market: MarketNames,
    params: EngineParams,
    tick: Tick,
    last_order_fail: Option<u128>,
    now: u128,
    size: Amount,
    is_yes: bool,
)
    requires
        !(tick.max_budget.positive() && tick.available_cash.below(Scalar::of(ONE))),
        last_order_fail matches Some(t) ==> now - t >= params.order_fail_cooldown_secs
            * 1_000_000_000 && now >= t,
        !guard.frozen,
        !guard.buy_in_flight,
        !guard.token_slots.contains(market.key),
        tick.snipe_size == Some(size),
        Amount::sum(guard.spent, Amount::product(Amount::of(1, 0), size)->0)->0@
            <= guard.max_budget@,
        ({
            let bought = if is_yes {
                tick.yes
            } else {
                tick.no
            };
            let kept = if is_yes {
                tick.no
            } else {
                tick.yes
            };
            &&& !bought.shares.below(Scalar::of(ONE))
            &&& !bought.notional.below(Scalar::of(ONE))
            &&& bought.best_ask.positive()
            &&& bought.best_ask.at_most(params.max_buy_price)
            &&& tick.is_relative_strike ==> params.relative_enter_threshold.below(
                bought.fair_less_ask,
            )
            &&& !tick.is_relative_strike ==> params.enter_threshold.below(bought.fair_less_ask)
            &&& guard.cap@ > 0 ==> {
                &&& bought.held_after matches Some(held) ==> held.valid() && -guard.cap@ <= held@
                    <= guard.cap@
                &&& kept.held matches Some(held) ==> held.valid() && -guard.cap@ <= held@
                    <= guard.cap@
            }
        }),
        is_yes ==> (tick.no.best_ask.positive() ==> tick.no.fair_less_ask.at_most(
            tick.yes.fair_less_ask,
        )),
        !is_yes ==> {
            ||| !tick.yes.best_ask.positive()
            ||| !tick.yes.best_ask.at_most(params.max_buy_price)
            ||| tick.yes.fair_less_ask.below(tick.no.fair_less_ask)
            ||| !tick.yes.fair_less_ask.is_number()
        },
    ensures
        verdict(Phase::Empty, guard, market, params, tick, last_order_fail, now) == (
        Verdict::Fire {
            token: if is_yes {
                market.yes
            } else {
                market.no
            },
            signal: SnipeSignal {
                side: OrderSide::Buy,
                target_price: if is_yes {
                    tick.yes.best_ask
                } else {
                    tick.no.best_ask
                },
                size: if is_yes {
                    tick.yes.shares
                } else {
                    tick.no.shares
                },
            },
            edge: if is_yes {
                tick.yes.fair_less_ask
            } else {
                tick.no.fair_less_ask
            },
        }),
{
    let after = if is_yes {
        (tick.yes.held_after, tick.no.held)
    } else {
        (tick.yes.held, tick.no.held_after)
    };
    if guard.cap@ > 0 {
        crate::decimal::lemma_nothing();
        crate::risk::guard::law_exposure_cap(guard, after.0, after.1);
    }
}

/// A purchase is fired for one of the two outcomes, at its own ask and for its own shares, and
/// only where that outcome's edge is above the threshold, its ask above zero and not above the
/// cap, and its shares and their cost not below one: the yes token only where the no token has no
/// ask or no larger edge, and the no token only where the yes token is not to be had or has no
/// edge that is as large.
pub proof fn law_every_purchase_is_a_good_one(
    phase: Phase,
    guard: GuardState,
    market: MarketNames,
    params: EngineParams,
    tick: Tick,
    last_order_fail: Option<u128>,
    now: u128,
)
    ensures
        ({
            let v = verdict(phase, guard, market, params, tick, last_order_fail, now);
            let threshold = if tick.is_relative_strike {
                params.relative_enter_threshold
            } else {
                params.enter_threshold
            };
            v is Fire && v->signal.side == OrderSide::Buy ==> {
                ||| {
                    &&& v->token == market.yes
                    &&& v->signal.target_price == tick.yes.best_ask
                    &&& v->signal.size == tick.yes.shares
                    &&& v->edge == tick.yes.fair_less_ask
                    &&& tick.yes.best_ask.positive()
                    &&& tick.yes.best_ask.at_most(params.max_buy_price)
                    &&& threshold.below(tick.yes.fair_less_ask)
                    &&& !tick.yes.shares.below(Scalar::of(ONE))
                    &&& !tick.yes.notional.below(Scalar::of(ONE))
                    &&& tick.no.best_ask.positive() ==> tick.no.fair_less_ask.at_most(
                        tick.yes.fair_less_ask,
                    )
                    &&& guard.exposure_verdict(tick.yes.held_after, tick.no.held) is Ok
                }
                ||| {
                    &&& v->token == market.no
                    &&& v->signal.target_price == tick.no.best_ask
                    &&& v->signal.size == tick.no.shares
                    &&& v->edge == tick.no.fair_less_ask
                    &&& tick.no.best_ask.positive()
                    &&& tick.no.best_ask.at_most(params.max_buy_price)
                    &&& threshold.below(tick.no.fair_less_ask)
                    &&& !tick.no.shares.below(Scalar::of(ONE))
                    &&& !tick.no.notional.below(Scalar::of(ONE))
                    &&& tick.yes.best_ask.positive() && tick.yes.best_ask.at_most(
                        params.max_buy_price,
                    ) ==> !tick.no.fair_less_ask.at_most(tick.yes.fair_less_ask)
                    &&& guard.exposure_verdict(tick.yes.held, tick.no.held_after) is Ok
                }
            }
        }),
{
}

/// A tick that leads to no order says why, and what it says is so.
pub proof fn law_every_refusal_has_its_reason(
    phase: Phase,
    guard: GuardState,
    market: MarketNames,
    params: EngineParams,
    tick: Tick,
    last_order_fail: Option<u128>,
    now: u128,
)
    ensures
        ({
            let threshold = if tick.is_relative_strike {
                params.relative_enter_threshold
            } else {
                params.enter_threshold
            };
            let one = Scalar::of(0x3ff0_0000_0000_0000);
            verdict(phase, guard, market, params, tick, last_order_fail, now) matches Verdict::Skip(
                reason,
            ) ==> match reason {
                SkipReason::Hibernating => phase is Empty && tick.max_budget.positive()
                    && tick.available_cash.below(one),
                SkipReason::CoolingDown => last_order_fail matches Some(t) && (now <= t || now - t
                    < params.order_fail_cooldown_secs * 1_000_000_000),
                SkipReason::Frozen => phase is Empty && guard.frozen,
                SkipReason::NoEdge => phase is Empty && (!tick.yes.best_ask.positive()
                    || !tick.yes.best_ask.at_most(params.max_buy_price) || !threshold.below(
                    tick.yes.fair_less_ask,
                ) || (tick.no.best_ask.positive() && !tick.no.fair_less_ask.at_most(
                    tick.yes.fair_less_ask,
                ))) && (!tick.no.best_ask.positive() || !tick.no.best_ask.at_most(
                    params.max_buy_price,
                ) || !threshold.below(tick.no.fair_less_ask)),
                SkipReason::BudgetTooSmall => phase is Empty && (tick.yes.shares.below(one)
                    || tick.no.shares.below(one)),
                SkipReason::NotionalTooSmall => phase is Empty && (tick.yes.notional.below(one)
                    || tick.no.notional.below(one)),
                SkipReason::ExposureLimit => phase is Empty && guard.cap@ > 0 && (
                guard.exposure_verdict(tick.yes.held_after, tick.no.held) is Err
                    || guard.exposure_verdict(tick.yes.held, tick.no.held_after) is Err),
                SkipReason::GlobalSlotTaken => phase is Empty && guard.buy_in_flight,
                SkipReason::MarketSlotTaken => phase is Empty && guard.token_slots.contains(
                    market.key,
                ),
                SkipReason::Unaffordable => phase is Empty && (tick.snipe_size is None
                    || Amount::sum(
                    guard.spent,
                    Amount::product(Amount::of(1, 0), tick.snipe_size->0)->0,
                )->0@ > guard.max_budget@),
                SkipReason::NoExit => phase is Holding,
                SkipReason::OrderPending => phase is PendingBuy || phase is PendingSell,
            }
        }),
{
}

/// Outside a cooldown a held token is sold exactly where its own bid is above zero, its own sell
/// edge is above the exit threshold or its own bid less its cost above the minimum profit, and
/// there is something to sell: at that bid, for what was bought or what is still there, whichever
/// is less. The other token's prices do not matter, nor do budget, slots and the breaker.
pub proof fn law_a_sale_follows_the_token_in_hand(
    token: Seq<char>,
    buy_price: Scalar,
    amount: Scalar,
    guard: GuardState,
    market: MarketNames,
    params: EngineParams,
    tick: Tick,
    last_order_fail: Option<u128>,
    now: u128,
)
    requires
        last_order_fail matches Some(t) ==> now >= t && now - t >= params.order_fail_cooldown_secs
            * 1_000_000_000,
    ensures
        ({
            let v = verdict(
                Phase::Holding { token, buy_price, amount },
                guard,
                market,
                params,
                tick,
                last_order_fail,
                now,
            );
            let there = tick.current_position;
            let sellable = (amount.positive() && there.positive()) || (amount.positive()
                && !there.is_number()) || (there.positive() && !amount.is_number());
            &&& token == market.yes ==> {
                &&& v is Fire <==> tick.yes.best_bid.positive() && (params.exit_threshold.below(
                    tick.yes.bid_less_fair,
                ) || params.min_profit.below(tick.yes.bid_less_cost)) && sellable
                &&& v is Fire ==> v->signal.target_price == tick.yes.best_bid && v->edge
                    == tick.yes.bid_less_fair
            }
            &&& token != market.yes ==> {
                &&& v is Fire <==> tick.no.best_bid.positive() && (params.exit_threshold.below(
                    tick.no.bid_less_fair,
                ) || params.min_profit.below(tick.no.bid_less_cost)) && sellable
                &&& v is Fire ==> v->signal.target_price == tick.no.best_bid && v->edge
                    == tick.no.bid_less_fair
            }
            &&& v is Fire ==> {
                &&& v->token == token
                &&& v->signal.side == OrderSide::Sell
                &&& amount.at_most(there) ==> v->signal.size == amount
                &&& there.at_most(amount) ==> v->signal.size == there
                &&& !there.is_number() ==> v->signal.size == amount
                &&& !amount.is_number() ==> v->signal.size == there
            }
            &&& v is Skip ==> v == Verdict::Skip(SkipReason::NoExit)
        }),
{
}

/// While an order failed less than the cooldown ago no order is fired, whatever the tick finds;
/// once it is over, or where no order failed, no tick is skipped for it.
pub proof fn law_the_cooldown_ends(
    phase: Phase,
    guard: GuardState,
    market: MarketNames,
    params: EngineParams,
    tick: Tick,
    last_order_fail: Option<u128>,
    now: u128,
)
    ensures
        ({
            let v = verdict(phase, guard, market, params, tick, last_order_fail, now);
            let secs = params.order_fail_cooldown_secs;
            &&& last_order_fail is Some && now - last_order_fail->0 < secs * 1_000_000_000
                && secs > 0 ==> v is Skip
            &&& last_order_fail is Some && now >= last_order_fail->0 && now - last_order_fail->0
                >= secs * 1_000_000_000 ==> v != Verdict::Skip(SkipReason::CoolingDown)
            &&& last_order_fail is None ==> v != Verdict::Skip(SkipReason::CoolingDown)
        }),
{
}

/// An order that is fired moves the position to a pending state that started now and remembers
/// what it is about; a purchase takes both slots, and nothing else of the guard changes.
pub proof fn law_a_fired_order_is_remembered(
    phase: Phase,
    guard: GuardState,
    market: MarketNames,
    params: EngineParams,
    tick: Tick,
    last_order_fail: Option<u128>,
    now: u128,
    other: Seq<char>,
)
    ensures
        ({
            let v = verdict(phase, guard, market, params, tick, last_order_fail, now);
            let next = phase_after(phase, v, now);
            let taken = guard_after(guard, market, v);
            &&& v is Fire && phase is Empty ==> {
                &&& v->signal.side == OrderSide::Buy
                &&& next == (Phase::PendingBuy { token: v->token, entered_at: now })
                &&& taken.buy_in_flight
                &&& taken.token_slots.contains(market.key)
                &&& other != market.key ==> taken.token_slots.contains(other)
                    == guard.token_slots.contains(other)
            }
            &&& v is Fire && phase is Holding ==> {
                &&& v->signal.side == OrderSide::Sell
                &&& next == (Phase::PendingSell {
                    token: phase->Holding_token,
                    buy_price: phase->Holding_buy_price,
                    amount: phase->Holding_amount,
                    amount_trying_to_sell: v->signal.size,
                    entered_at: now,
                })
                &&& taken == guard
            }
            &&& v is Skip ==> next == phase && taken == guard
            &&& taken.spent == guard.spent
            &&& taken.max_budget == guard.max_budget
            &&& taken.cap == guard.cap
            &&& taken.frozen == guard.frozen
        }),
{
}

/// A tick is always decided where nothing is to be bought: only the budget of a purchase that
/// nothing else stands against can be too large for the decimals.
pub proof fn law_only_a_purchase_asks_the_budget(
    phase: Phase,
    guard: GuardState,
    market: MarketNames,
    params: EngineParams,
    tick: Tick,
    last_order_fail: Option<u128>,
    now: u128,
)
    ensures
        ({
            let can = can_decide(phase, guard, market, params, tick, last_order_fail, now);
            &&& !(phase is Empty) ==> can
            &&& guard.frozen || guard.buy_in_flight || guard.token_slots.contains(market.key) ==> can
            &&& !tick.yes.best_ask.positive() && !tick.no.best_ask.positive() ==> can
            &&& tick.snipe_size is None ==> can
            &&& Amount::product(Amount::of(1, 0), tick.snipe_size->0) is Some && Amount::sum(
                guard.spent,
                Amount::product(Amount::of(1, 0), tick.snipe_size->0)->0,
            ) is Some ==> can
        }),
{
}

} // verus!
