//! The steps of an order from the reservation of its budget to the update that reports how it
//! ended.
use crate::decimal::{representable, Amount};
use crate::engine::iceberg::ICEBERG_WINDOW_SECS;
use crate::engine::params::EngineParams;
use crate::engine::state::{held_of, FireOrder, MarketNames};
use crate::models::types::OrderSide;
use crate::risk::guard::{is_lowered, BudgetReservation, GuardState, RiskGuard};
use crate::risk::inventory::{entry_of, InventoryManager, MarketExposure};
use crate::scalar::{Scalar, EPSILON};
use vstd::prelude::*;

verus! {

/// Milliseconds between placing an order and looking at what it has filled.
pub const SETTLE_MILLIS: u64 = 1500;

/// How an order ended.
#[derive(Clone, Debug)]
pub struct ExecutedOrderUpdate {
    pub token_id: String,
    pub side: OrderSide,
    pub price: Scalar,
    pub size: Scalar,
    pub synced_position: Scalar,
    pub edge_hint: Scalar,
    pub success: bool,
    pub reservation: Option<BudgetReservation>,
}

/// An [`ExecutedOrderUpdate`] with its token as a sequence of characters.
pub struct Report {
    pub token: Seq<char>,
    pub side: OrderSide,
    pub price: Scalar,
    pub size: Scalar,
    pub synced_position: Scalar,
    pub edge_hint: Scalar,
    pub success: bool,
    pub reservation: Option<BudgetReservation>,
}

impl View for ExecutedOrderUpdate {
    type V = Report;

    open spec fn view(&self) -> Report {
        Report {
            token: self.token_id@,
            side: self.side,
            price: self.price,
            size: self.size,
            synced_position: self.synced_position,
            edge_hint: self.edge_hint,
            success: self.success,
            reservation: self.reservation,
        }
    }
}

/// Decimal values of a price and a size; none where decimal digits cannot hold the value.
#[derive(Clone, Copy, Debug)]
pub struct Decimals {
    pub price: Option<Amount>,
    pub size: Option<Amount>,
}

/// What follows the start of an order.
pub enum FireStep {
    /// The order ended before it was placed.
    Finished(ExecutedOrderUpdate),
    /// The order is to be placed; a purchase holds this reservation.
    Place(Option<BudgetReservation>),
}

/// What a failed order reports: nothing filled, and nothing left to settle.
pub open spec fn failure(order: FireOrder, position: Scalar) -> Report {
    Report {
        token: order.token_id@,
        side: order.signal.side,
        price: order.signal.target_price,
        size: Scalar::of(0),
        synced_position: Scalar::larger(position, Scalar::of(0)),
        edge_hint: order.edge,
        success: false,
        reservation: None,
    }
}

/// What a filled order reports.
pub open spec fn completion(
    order: FireOrder,
    position: Scalar,
    filled: Scalar,
    reservation: Option<BudgetReservation>,
) -> Report {
    Report { size: filled, success: true, reservation, ..failure(order, position) }
}

/// The guard without the buy slots of a purchase.
pub open spec fn slots_freed(guard: GuardState, side: OrderSide, key: Seq<char>) -> GuardState {
    if side == OrderSide::Buy {
        GuardState { buy_in_flight: false, token_slots: guard.token_slots.remove(key), ..guard }
    } else {
        guard
    }
}

/// What is given back of a reservation, if there is one, and of the buy slots of a purchase.
pub open spec fn rolls_back(
    pre: GuardState,
    side: OrderSide,
    reservation: Option<BudgetReservation>,
    key: Seq<char>,
    post: GuardState,
) -> bool {
    &&& post == slots_freed(GuardState { spent: post.spent, ..pre }, side, key)
    &&& match reservation {
        Some(r) => is_lowered(pre.spent, r.reserved(), post.spent),
        None => post.spent == pre.spent,
    }
}

/// Decimal arithmetic can hold the spend without the reservation.
pub open spec fn can_roll_back(guard: GuardState, reservation: Option<BudgetReservation>) -> bool {
    reservation matches Some(r) ==> Amount::difference(guard.spent, r.reserved()) is Some
}

/// Decimal arithmetic can hold all that [`begin_fire`] asks of the budget.
pub open spec fn can_begin(
    guard: GuardState,
    side: OrderSide,
    decimals: Decimals,
    places: bool,
) -> bool {
    side == OrderSide::Buy ==> {
        &&& guard.can_price(decimals.price, decimals.size)
        &&& guard.affords(decimals.price, decimals.size) && !places ==> {
            let cost = Amount::product(decimals.price->0, decimals.size->0)->0;
            Amount::difference(Amount::sum(guard.spent, cost)->0, cost) is Some
        }
    }
}

/// What [`begin_fire`] does.
pub open spec fn begins(
    pre: GuardState,
    order: FireOrder,
    key: Seq<char>,
    decimals: Decimals,
    places: bool,
    position: Scalar,
    post: GuardState,
    step: FireStep,
) -> bool {
    let side = order.signal.side;
    if side == OrderSide::Sell {
        &&& post == pre
        &&& if places {
            step == FireStep::Place(None)
        } else {
            step is Finished && step->Finished_0@ == failure(order, position)
        }
    } else if !pre.affords(decimals.price, decimals.size) {
        &&& post == slots_freed(pre, side, key)
        &&& step is Finished && step->Finished_0@ == failure(order, position)
    } else if places {
        &&& step is Place && step->Place_0 is Some
        &&& pre.reserves(decimals.price, decimals.size, post, Ok(step->Place_0->0))
    } else {
        &&& step is Finished && step->Finished_0@ == failure(order, position)
        &&& exists|mid: GuardState, reservation: BudgetReservation|
            #![trigger rolls_back(mid, side, Some(reservation), key, post)]
            pre.reserves(decimals.price, decimals.size, mid, Ok(reservation)) && rolls_back(
                mid,
                side,
                Some(reservation),
                key,
                post,
            )
    }
}

fn failed_update(order: &FireOrder, position: Scalar) -> (r: ExecutedOrderUpdate)
    ensures
        r@ == failure(*order, position),
{
    ExecutedOrderUpdate {
        token_id: order.token_id.clone(),
        side: order.signal.side,
        price: order.signal.target_price,
        size: Scalar::zero(),
        synced_position: position.max(&Scalar::zero()),
        edge_hint: order.edge,
        success: false,
        reservation: None,
    }
}

fn free_slots(guard: &mut RiskGuard, side: OrderSide, market_key: &str)
    ensures
        final(guard)@ == slots_freed(old(guard)@, side, market_key@),
{
    if side == OrderSide::Buy {
        guard.release_global_buy_slot();
        guard.release_token_buy_slot(market_key);
    }
}

fn roll_back(
    guard: &mut RiskGuard,
    side: OrderSide,
    reservation: Option<BudgetReservation>,
    market_key: &str,
)
    requires
        can_roll_back(old(guard)@, reservation),
    ensures
        rolls_back(old(guard)@, side, reservation, market_key@, final(guard)@),
{
    if let Some(r) = reservation {
        guard.release_budget(r.clone_for_release());
    }
    free_slots(guard, side, market_key);
}

/// Starts an order: sets the budget of a purchase aside and says whether the order is placed.
/// It ends here, with all that it had taken given back, where the budget refuses it, in a dry
/// run and without a client. `local_position` is what the ledger knows of the token.
pub fn begin_fire(
    guard: &mut RiskGuard,
    order: &FireOrder,
    market_key: &str,
    decimals: Decimals,
    dry_run: bool,
    has_client: bool,
    local_position: Scalar,
) -> (r: FireStep)
    requires
        can_begin(old(guard)@, order.signal.side, decimals, !dry_run && has_client),
    ensures
        begins(
            old(guard)@,
            *order,
            market_key@,
            decimals,
            !dry_run && has_client,
            local_position,
            final(guard)@,
            r,
        ),
{
    let side = order.signal.side;
    let mut reservation: Option<BudgetReservation> = None;
    if side == OrderSide::Buy {
        match guard.reserve_budget(decimals.price, decimals.size) {
            Ok(r) => {
                reservation = Some(r);
            },
            Err(_) => {
                free_slots(guard, side, market_key);
                return FireStep::Finished(failed_update(order, local_position));
            },
        }
    }
    if dry_run || !has_client {
        let ghost mid = guard@;
        roll_back(guard, side, reservation, market_key);
        proof {
            if side == OrderSide::Buy {
                assert(rolls_back(mid, side, Some(reservation->0), market_key@, guard@));
            }
        }
        return FireStep::Finished(failed_update(order, local_position));
    }
    FireStep::Place(reservation)
}

/// [`begin_fire`] where decimal arithmetic can hold all that it asks of the budget; `None`, and
/// nothing done, where it cannot.
pub fn try_begin_fire(
    guard: &mut RiskGuard,
    order: &FireOrder,
    market_key: &str,
    decimals: Decimals,
    dry_run: bool,
    has_client: bool,
    local_position: Scalar,
) -> (r: Option<FireStep>)
    ensures
        r is Some <==> can_begin(
            old(guard)@,
            order.signal.side,
            decimals,
            !dry_run && has_client,
        ),
        r matches Some(step) ==> begins(
            old(guard)@,
            *order,
            market_key@,
            decimals,
            !dry_run && has_client,
            local_position,
            final(guard)@,
            step,
        ),
        r is None ==> final(guard)@ == old(guard)@,
{
    if order.signal.side == OrderSide::Buy {
        match guard.try_can_afford(decimals.price, decimals.size) {
            Some(affordable) => {
                if affordable && (dry_run || !has_client) {
                    let cost = decimals.price.unwrap().checked_mul(&decimals.size.unwrap()).unwrap();
                    let total = guard.current_spent().checked_add(&cost).unwrap();
                    if total.checked_sub(&cost).is_none() {
                        return None;
                    }
                }
            },
            None => {
                return None;
            },
        }
    }
    Some(
        begin_fire(guard, order, market_key, decimals, dry_run, has_client, local_position),
    )
}

/// Seconds that placing an order may take.
pub fn placement_timeout_secs(iceberg: bool, params: &EngineParams) -> (r: u64)
    ensures
        r == (if iceberg {
            ICEBERG_WINDOW_SECS
        } else {
            params.order_timeout_secs
        }),
{
    if iceberg {
        ICEBERG_WINDOW_SECS
    } else {
        params.order_timeout_secs
    }
}

/// Whether an order was placed: in time, and at least one of its parts.
pub open spec fn was_placed(in_time: bool, placed: Seq<bool>) -> bool {
    in_time && placed.contains(true)
}

/// Whether an order was placed: in time, and at least one of its parts.
pub fn placement_succeeded(in_time: bool, placed: &Vec<bool>) -> (r: bool)
    ensures
        r == was_placed(in_time, placed@),
{
    if !in_time {
        return false;
    }
    let mut i: usize = 0;
    while i < placed.len()
        invariant
            i <= placed.len(),
            in_time,
            forall|j: int| 0 <= j < i ==> !#[trigger] placed@[j],
        decreases placed.len() - i,
    {
        if placed[i] {
            assert(placed@[i as int] == true);
            return true;
        }
        i = i + 1;
    }
    false
}

/// Ends an order that could not be placed: all that it had taken is given back.
pub fn abandon(
    guard: &mut RiskGuard,
    order: &FireOrder,
    market_key: &str,
    reservation: Option<BudgetReservation>,
    local_position: Scalar,
) -> (r: ExecutedOrderUpdate)
    requires
        can_roll_back(old(guard)@, reservation),
    ensures
        rolls_back(old(guard)@, order.signal.side, reservation, market_key@, final(guard)@),
        r@ == failure(*order, local_position),
{
    roll_back(guard, order.signal.side, reservation, market_key);
    failed_update(order, local_position)
}

/// [`abandon`] where decimal arithmetic can hold the spend without the reservation; `None`, and
/// nothing done, where it cannot.
pub fn try_abandon(
    guard: &mut RiskGuard,
    order: &FireOrder,
    market_key: &str,
    reservation: Option<BudgetReservation>,
    local_position: Scalar,
) -> (r: Option<ExecutedOrderUpdate>)
    ensures
        r is Some <==> can_roll_back(old(guard)@, reservation),
        r matches Some(update) ==> rolls_back(
            old(guard)@,
            order.signal.side,
            reservation,
            market_key@,
            final(guard)@,
        ) && update@ == failure(*order, local_position),
        r is None ==> final(guard)@ == old(guard)@,
{
    if let Some(held) = reservation {
        if guard.current_spent().checked_sub(&held.amount()).is_none() {
            return None;
        }
    }
    Some(abandon(guard, order, market_key, reservation, local_position))
}

/// What an order has filled: how much the position grew on a purchase and shrank on a sale,
/// and never less than nothing.
pub open spec fn fill_of(side: OrderSide, growth: Scalar, shrinkage: Scalar) -> Scalar {
    match side {
        OrderSide::Buy => Scalar::larger(growth, Scalar::of(0)),
        OrderSide::Sell => Scalar::larger(shrinkage, Scalar::of(0)),
    }
}

/// What an order has filled. `growth` is the position after the order less the position before
/// it, and `shrinkage` the difference the other way.
pub fn filled_size(side: OrderSide, growth: Scalar, shrinkage: Scalar) -> (r: Scalar)
    ensures
        r == fill_of(side, growth, shrinkage),
{
    match side {
        OrderSide::Buy => growth.max(&Scalar::zero()),
        OrderSide::Sell => shrinkage.max(&Scalar::zero()),
    }
}

/// Decimal arithmetic can hold all that [`settle`] computes.
pub open spec fn can_settle(
    guard: GuardState,
    ledger: Map<Seq<char>, MarketExposure>,
    order: FireOrder,
    reservation: Option<BudgetReservation>,
    filled: Scalar,
    decimals: Decimals,
) -> bool {
    if filled.at_most(Scalar::of(EPSILON)) {
        can_roll_back(guard, reservation)
    } else {
        &&& entry_of(ledger, order.token_id@).can_fill(
            true,
            order.signal.side,
            decimals.size,
            decimals.price,
        )
        &&& order.signal.side == OrderSide::Sell ==> guard.can_refund_sale(
            decimals.price,
            decimals.size,
        )
    }
}

/// What [`settle`] does.
pub open spec fn settles(
    pre: GuardState,
    pre_ledger: Map<Seq<char>, MarketExposure>,
    order: FireOrder,
    key: Seq<char>,
    reservation: Option<BudgetReservation>,
    filled: Scalar,
    decimals: Decimals,
    position: Scalar,
    now: Scalar,
    post: GuardState,
    post_ledger: Map<Seq<char>, MarketExposure>,
    report: Report,
) -> bool {
    let side = order.signal.side;
    let token = order.token_id@;
    if filled.at_most(Scalar::of(EPSILON)) {
        &&& rolls_back(pre, side, reservation, key, post)
        &&& post_ledger == pre_ledger
        &&& report == failure(order, position)
    } else {
        &&& entry_of(pre_ledger, token).applies_fill(
            true,
            side,
            decimals.size,
            decimals.price,
            now,
            post_ledger[token],
        )
        &&& post_ledger == pre_ledger.insert(token, post_ledger[token])
        &&& match side {
            OrderSide::Buy => post == slots_freed(pre, side, key),
            OrderSide::Sell => pre.refunds_sale(decimals.price, decimals.size, post),
        }
        &&& report == completion(order, position, filled, reservation)
    }
}

/// Ends an order that was placed. Where nothing was filled all that it had taken is given back;
/// a fill goes to the ledger, the proceeds of a sale go back to the budget, and the reservation
/// of a purchase goes into the report. `filled` is what was filled, `decimals` holds the decimal
/// values of the price and of what was filled, and `position` is what is held afterwards.
pub fn settle(
    guard: &mut RiskGuard,
    inventory: &mut InventoryManager,
    order: &FireOrder,
    market_key: &str,
    reservation: Option<BudgetReservation>,
    filled: Scalar,
    decimals: Decimals,
    position: Scalar,
    now: Scalar,
) -> (r: ExecutedOrderUpdate)
    requires
        can_settle(old(guard)@, old(inventory)@, *order, reservation, filled, decimals),
    ensures
        settles(
            old(guard)@,
            old(inventory)@,
            *order,
            market_key@,
            reservation,
            filled,
            decimals,
            position,
            now,
            final(guard)@,
            final(inventory)@,
            r@,
        ),
{
    let side = order.signal.side;
    if filled.le(&Scalar::from_bits(EPSILON)) {
        return abandon(guard, order, market_key, reservation, position);
    }
    inventory.apply_fill(
        order.token_id.as_str(),
        true,
        side,
        decimals.size,
        decimals.price,
        now,
    );
    if side == OrderSide::Sell {
        guard.refund_budget_on_sell(decimals.price, decimals.size);
    }
    free_slots(guard, side, market_key);
    ExecutedOrderUpdate {
        token_id: order.token_id.clone(),
        side,
        price: order.signal.target_price,
        size: filled,
        synced_position: position.max(&Scalar::zero()),
        edge_hint: order.edge,
        success: true,
        reservation,
    }
}

/// [`settle`] where decimal arithmetic can hold all that it computes; `None`, and nothing done,
/// where it cannot.
pub fn try_settle(
    guard: &mut RiskGuard,
    inventory: &mut InventoryManager,
    order: &FireOrder,
    market_key: &str,
    reservation: Option<BudgetReservation>,
    filled: Scalar,
    decimals: Decimals,
    position: Scalar,
    now: Scalar,
) -> (r: Option<ExecutedOrderUpdate>)
    ensures
        r is Some <==> can_settle(
            old(guard)@,
            old(inventory)@,
            *order,
            reservation,
            filled,
            decimals,
        ),
        r matches Some(update) ==> settles(
            old(guard)@,
            old(inventory)@,
            *order,
            market_key@,
            reservation,
            filled,
            decimals,
            position,
            now,
            final(guard)@,
            final(inventory)@,
            update@,
        ),
        r is None ==> final(guard)@ == old(guard)@ && final(inventory)@ == old(inventory)@,
{
    let side = order.signal.side;
    if filled.le(&Scalar::from_bits(EPSILON)) {
        if let Some(held) = reservation {
            if guard.current_spent().checked_sub(&held.amount()).is_none() {
                return None;
            }
        }
    } else {
        if !inventory.can_apply_fill(
            order.token_id.as_str(),
            true,
            side,
            decimals.size,
            decimals.price,
        ) {
            return None;
        }
        if side == OrderSide::Sell && !guard.can_refund_sale(decimals.price, decimals.size) {
            return None;
        }
    }
    Some(
        settle(
            guard,
            inventory,
            order,
            market_key,
            reservation,
            filled,
            decimals,
            position,
            now,
        ),
    )
}

/// Every way in which an order can end frees the buy slots of a purchase and leaves the budget,
/// the cap and the breaker alone: refused, not placed for want of a client or in a dry run, not
/// accepted by the exchange, not filled, or filled.
pub proof fn law_every_end_frees_the_slots(
    pre: GuardState,
    pre_ledger: Map<Seq<char>, MarketExposure>,
    order: FireOrder,
    key: Seq<char>,
    decimals: Decimals,
    places: bool,
    reservation: Option<BudgetReservation>,
    filled: Scalar,
    position: Scalar,
    now: Scalar,
    post: GuardState,
    post_ledger: Map<Seq<char>, MarketExposure>,
    step: FireStep,
    report: Report,
)
    requires
        order.signal.side == OrderSide::Buy,
        ({
            ||| begins(pre, order, key, decimals, places, position, post, step) && step is Finished
            ||| rolls_back(pre, OrderSide::Buy, reservation, key, post)
            ||| settles(
                pre,
                pre_ledger,
                order,
                key,
                reservation,
                filled,
                decimals,
                position,
                now,
                post,
                post_ledger,
                report,
            )
        }),
    ensures
        !post.buy_in_flight,
        !post.token_slots.contains(key),
        forall|other: Seq<char>|
            other != key ==> (#[trigger] post.token_slots.contains(other)
                == pre.token_slots.contains(other)),
        post.max_budget == pre.max_budget,
        post.cap == pre.cap,
        post.frozen == pre.frozen,
{
}

/// A purchase that ends without a fill leaves the spend as it was before the order (where the
/// decimals hold the spend and its reservation without rounding): whether it ends before it is
/// placed or is rolled back later.
pub proof fn law_no_fill_leaves_the_spend(
    pre: GuardState,
    order: FireOrder,
    key: Seq<char>,
    decimals: Decimals,
    position: Scalar,
    mid: GuardState,
    step: FireStep,
    post: GuardState,
    ended: GuardState,
    early: FireStep,
)
    requires
        order.signal.side == OrderSide::Buy,
        pre.spent.valid(),
        pre.spent@ >= 0,
        ({
            let cost = Amount::product(decimals.price->0, decimals.size->0)->0;
            crate::decimal::representable(pre.spent@ + cost@)
        }),
    ensures
        begins(pre, order, key, decimals, true, position, mid, step) && step is Place && rolls_back(
            mid,
            OrderSide::Buy,
            step->Place_0,
            key,
            post,
        ) ==> post.spent@ == pre.spent@,
        begins(pre, order, key, decimals, false, position, ended, early) ==> ended.spent@
            == pre.spent@,
{
    crate::decimal::lemma_value_representable(pre.spent);
    let cost = Amount::product(decimals.price->0, decimals.size->0)->0;
    if begins(pre, order, key, decimals, false, position, ended, early) && pre.affords(
        decimals.price,
        decimals.size,
    ) {
        let (between, reservation) = choose|between: GuardState, reservation: BudgetReservation|
            #![trigger rolls_back(between, OrderSide::Buy, Some(reservation), key, ended)]
            pre.reserves(decimals.price, decimals.size, between, Ok(reservation)) && rolls_back(
                between,
                OrderSide::Buy,
                Some(reservation),
                key,
                ended,
            );
        assert(between.spent@ == pre.spent@ + cost@);
        assert(between.spent@ - reservation.reserved()@ == pre.spent@);
    }
    if begins(pre, order, key, decimals, true, position, mid, step) && step is Place && rolls_back(
        mid,
        OrderSide::Buy,
        step->Place_0,
        key,
        post,
    ) {
        assert(mid.spent@ == pre.spent@ + cost@);
        assert(mid.spent@ - step->Place_0->0.reserved()@ == pre.spent@);
    }
}

/// In a dry run, and without a client, no order is placed.
pub proof fn law_dry_run_places_nothing(
    pre: GuardState,
    order: FireOrder,
    key: Seq<char>,
    decimals: Decimals,
    dry_run: bool,
    has_client: bool,
    position: Scalar,
    post: GuardState,
    step: FireStep,
)
    requires
        dry_run || !has_client,
        begins(pre, order, key, decimals, !dry_run && has_client, position, post, step),
    ensures
        step is Finished,
        !step->Finished_0@.success,
        order.signal.side == OrderSide::Sell ==> post == pre,
{
}

/// A settled purchase raises what is held of its token by its size, for the no token as for the
/// yes token, and leaves what is held of the other one (where the decimals hold the sum without
/// rounding). What is held is what [`held_quantities`](crate::engine::state::held_quantities)
/// tells.
pub proof fn law_a_settled_purchase_counts_as_held(
    pre: GuardState,
    pre_ledger: Map<Seq<char>, MarketExposure>,
    order: FireOrder,
    key: Seq<char>,
    reservation: Option<BudgetReservation>,
    filled: Scalar,
    decimals: Decimals,
    position: Scalar,
    now: Scalar,
    post: GuardState,
    post_ledger: Map<Seq<char>, MarketExposure>,
    report: Report,
    other: Seq<char>,
)
    requires
        order.signal.side == OrderSide::Buy,
        !filled.at_most(Scalar::of(EPSILON)),
        settles(
            pre,
            pre_ledger,
            order,
            key,
            reservation,
            filled,
            decimals,
            position,
            now,
            post,
            post_ledger,
            report,
        ),
        crate::decimal::representable(
            entry_of(pre_ledger, order.token_id@).yes_qty@ + GuardState::or_zero(decimals.size)@,
        ),
        other != order.token_id@,
    ensures
        entry_of(post_ledger, order.token_id@).yes_qty@ == entry_of(
            pre_ledger,
            order.token_id@,
        ).yes_qty@ + GuardState::or_zero(decimals.size)@,
        entry_of(post_ledger, other) == entry_of(pre_ledger, other),
{
}

/// A settled fill is booked under its token as yes quantity: a purchase raises it by the filled
/// size and a sale lowers it by that, and the realized result moves the other way by what the fill
/// is worth (each where the decimals hold the outcome without rounding). Nothing else of the entry
/// moves but the time, and no other entry does.
pub proof fn law_a_settled_fill_is_booked(
    pre: GuardState,
    pre_ledger: Map<Seq<char>, MarketExposure>,
    order: FireOrder,
    key: Seq<char>,
    reservation: Option<BudgetReservation>,
    filled: Scalar,
    decimals: Decimals,
    position: Scalar,
    now: Scalar,
    post: GuardState,
    post_ledger: Map<Seq<char>, MarketExposure>,
    report: Report,
    price: Amount,
    size: Amount,
    other: Seq<char>,
)
    requires
        settles(
            pre,
            pre_ledger,
            order,
            key,
            reservation,
            filled,
            decimals,
            position,
            now,
            post,
            post_ledger,
            report,
        ),
        !filled.at_most(Scalar::of(0x3cb0_0000_0000_0000)),
        decimals.price == Some(price),
        decimals.size == Some(size),
        other != order.token_id@,
    ensures
        ({
            let before = entry_of(pre_ledger, order.token_id@);
            let after = entry_of(post_ledger, order.token_id@);
            let worth = Amount::product(price, size)->0;
            &&& order.signal.side == OrderSide::Buy ==> {
                &&& representable(before.yes_qty@ + size@) ==> after.yes_qty@ == before.yes_qty@
                    + size@
                &&& representable(before.realized_pnl@ - worth@) ==> after.realized_pnl@
                    == before.realized_pnl@ - worth@
            }
            &&& order.signal.side == OrderSide::Sell ==> {
                &&& representable(before.yes_qty@ - size@) ==> after.yes_qty@ == before.yes_qty@
                    - size@
                &&& representable(before.realized_pnl@ + worth@) ==> after.realized_pnl@
                    == before.realized_pnl@ + worth@
            }
            &&& after.no_qty == before.no_qty
            &&& after.pending_yes_buy_notional == before.pending_yes_buy_notional
            &&& after.pending_no_buy_notional == before.pending_no_buy_notional
            &&& after.last_local_fill_timestamp == now
            &&& entry_of(post_ledger, other) == entry_of(pre_ledger, other)
            &&& post_ledger.contains_key(other) == pre_ledger.contains_key(other)
        }),
{
}

/// What a fill does to the guard. A filled purchase frees its slots and leaves the spend, of which
/// its reservation is part, to the report; the proceeds of a sale come off the spend, which does
/// not go below zero (where the decimals hold the difference without rounding), and leave the
/// slots alone. Budget, cap and breaker stay.
pub proof fn law_a_settled_fill_moves_the_budget(
    pre: GuardState,
    pre_ledger: Map<Seq<char>, MarketExposure>,
    order: FireOrder,
    key: Seq<char>,
    reservation: Option<BudgetReservation>,
    filled: Scalar,
    decimals: Decimals,
    position: Scalar,
    now: Scalar,
    post: GuardState,
    post_ledger: Map<Seq<char>, MarketExposure>,
    report: Report,
    price: Amount,
    size: Amount,
    other: Seq<char>,
)
    requires
        settles(
            pre,
            pre_ledger,
            order,
            key,
            reservation,
            filled,
            decimals,
            position,
            now,
            post,
            post_ledger,
            report,
        ),
        !filled.at_most(Scalar::of(0x3cb0_0000_0000_0000)),
        decimals.price == Some(price),
        decimals.size == Some(size),
        other != key,
    ensures
        ({
            let worth = Amount::product(price, size)->0;
            &&& order.signal.side == OrderSide::Buy ==> {
                &&& post.spent == pre.spent
                &&& !post.buy_in_flight
                &&& !post.token_slots.contains(key)
                &&& post.token_slots.contains(other) == pre.token_slots.contains(other)
            }
            &&& order.signal.side == OrderSide::Sell ==> {
                &&& representable(pre.spent@ - worth@) && pre.spent@ >= worth@ ==> post.spent@
                    == pre.spent@ - worth@
                &&& representable(pre.spent@ - worth@) && pre.spent@ < worth@ ==> post.spent@ == 0
                &&& post.buy_in_flight == pre.buy_in_flight
                &&& post.token_slots == pre.token_slots
            }
            &&& post.max_budget == pre.max_budget
            &&& post.cap == pre.cap
            &&& post.frozen == pre.frozen
        }),
{
}

/// An order of which nothing was filled, or no more than the rounding of the exchange, leaves the
/// ledger as it was and reports a failure; what it had reserved comes off the spend (where the
/// decimals hold the difference without rounding), and a sale leaves the whole guard as it was.
pub proof fn law_an_order_without_a_fill_leaves_nothing(
    pre: GuardState,
    pre_ledger: Map<Seq<char>, MarketExposure>,
    order: FireOrder,
    key: Seq<char>,
    reservation: Option<BudgetReservation>,
    filled: Scalar,
    decimals: Decimals,
    position: Scalar,
    now: Scalar,
    post: GuardState,
    post_ledger: Map<Seq<char>, MarketExposure>,
    report: Report,
)
    requires
        settles(
            pre,
            pre_ledger,
            order,
            key,
            reservation,
            filled,
            decimals,
            position,
            now,
            post,
            post_ledger,
            report,
        ),
        filled.at_most(Scalar::of(0x3cb0_0000_0000_0000)),
    ensures
        post_ledger == pre_ledger,
        !report.success,
        report.size == Scalar::of(0),
        report.reservation is None,
        reservation is None ==> post.spent == pre.spent,
        reservation is Some && representable(pre.spent@ - reservation->0.reserved()@) ==> post.spent@
            == (if pre.spent@ > reservation->0.reserved()@ {
            pre.spent@ - reservation->0.reserved()@
        } else {
            0
        }),
        order.signal.side == OrderSide::Sell && reservation is None ==> post == pre,
        order.signal.side == OrderSide::Sell ==> post.buy_in_flight == pre.buy_in_flight
            && post.token_slots == pre.token_slots,
{
}

/// A settled purchase followed by a settled sale of the same size leaves both quantities of the
/// entry as they were (where the decimals hold the sum without rounding).
pub proof fn law_a_settled_sale_undoes_the_purchase(
    guards: (GuardState, GuardState, GuardState, GuardState),
    before: Map<Seq<char>, MarketExposure>,
    held: Map<Seq<char>, MarketExposure>,
    after: Map<Seq<char>, MarketExposure>,
    buy: FireOrder,
    sell: FireOrder,
    keys: (Seq<char>, Seq<char>),
    reservation: Option<BudgetReservation>,
    filled: (Scalar, Scalar),
    bought: Decimals,
    sold: Decimals,
    positions: (Scalar, Scalar),
    times: (Scalar, Scalar),
    reports: (Report, Report),
    size: Amount,
)
    requires
        buy.signal.side == OrderSide::Buy,
        sell.signal.side == OrderSide::Sell,
        sell.token_id@ == buy.token_id@,
        bought.size == Some(size),
        sold.size == Some(size),
        !filled.0.at_most(Scalar::of(EPSILON)),
        !filled.1.at_most(Scalar::of(EPSILON)),
        entry_of(before, buy.token_id@).yes_qty.valid(),
        representable(entry_of(before, buy.token_id@).yes_qty@ + size@),
        settles(
            guards.0,
            before,
            buy,
            keys.0,
            reservation,
            filled.0,
            bought,
            positions.0,
            times.0,
            guards.1,
            held,
            reports.0,
        ),
        settles(
            guards.2,
            held,
            sell,
            keys.1,
            None,
            filled.1,
            sold,
            positions.1,
            times.1,
            guards.3,
            after,
            reports.1,
        ),
    ensures
        entry_of(held, buy.token_id@).yes_qty@ == entry_of(before, buy.token_id@).yes_qty@ + size@,
        entry_of(after, buy.token_id@).yes_qty@ == entry_of(before, buy.token_id@).yes_qty@,
        entry_of(after, buy.token_id@).no_qty == entry_of(before, buy.token_id@).no_qty,
{
    crate::decimal::lemma_value_representable(entry_of(before, buy.token_id@).yes_qty);
}

/// Every report names its order, and the position that is left but nothing below zero; that of a
/// failure has no size and no reservation, that of a fill what was filled and its reservation.
pub proof fn law_a_report_names_its_order(
    order: FireOrder,
    position: Scalar,
    filled: Scalar,
    reservation: Option<BudgetReservation>,
)
    ensures
        ({
            let failed = failure(order, position);
            let done = completion(order, position, filled, reservation);
            &&& !failed.success && failed.size == Scalar::of(0) && failed.reservation is None
            &&& done.success && done.size == filled && done.reservation == reservation
            &&& failed.token == order.token_id@ && done.token == order.token_id@
            &&& failed.side == order.signal.side && done.side == order.signal.side
            &&& failed.price == order.signal.target_price && done.price
                == order.signal.target_price
            &&& failed.edge_hint == order.edge && done.edge_hint == order.edge
            &&& position.positive() ==> failed.synced_position == position && done.synced_position
                == position
            &&& !position.positive() ==> !failed.synced_position.positive()
                && Scalar::of(0).at_most(failed.synced_position) && done.synced_position
                == failed.synced_position
        }),
{
}

/// Outside a dry run, and with a client, a sale is placed, and so is a purchase that fits into
/// what is left of the budget; its cost is reserved and added to the spend (where the decimals
/// hold the sum without rounding), and the slots stay taken. A purchase that does not fit is not
/// placed and leaves the spend.
pub proof fn law_an_affordable_order_is_placed(
    pre: GuardState,
    order: FireOrder,
    key: Seq<char>,
    decimals: Decimals,
    position: Scalar,
    post: GuardState,
    step: FireStep,
)
    requires
        begins(pre, order, key, decimals, true, position, post, step),
    ensures
        order.signal.side == OrderSide::Sell ==> step == FireStep::Place(None) && post == pre,
        ({
            let cost = Amount::product(decimals.price->0, decimals.size->0)->0;
            let fits = decimals.price is Some && decimals.size is Some && Amount::sum(
                pre.spent,
                cost,
            )->0@ <= pre.max_budget@;
            &&& order.signal.side == OrderSide::Buy && fits ==> {
                &&& step is Place && step->Place_0 is Some
                &&& step->Place_0->0.reserved() == cost
                &&& representable(pre.spent@ + cost@) ==> post.spent@ == pre.spent@ + cost@
                &&& post == (GuardState { spent: post.spent, ..pre })
            }
            &&& order.signal.side == OrderSide::Buy && !fits ==> {
                &&& step is Finished
                &&& !step->Finished_0@.success
                &&& post.spent == pre.spent
            }
        }),
{
}

/// What was filled is what the position grew by on a purchase and shrank by on a sale, and nothing
/// where it did not.
pub proof fn law_a_fill_is_what_the_position_moved(growth: Scalar, shrinkage: Scalar)
    ensures
        growth.positive() ==> fill_of(OrderSide::Buy, growth, shrinkage) == growth,
        shrinkage.positive() ==> fill_of(OrderSide::Sell, growth, shrinkage) == shrinkage,
        !growth.positive() ==> !fill_of(OrderSide::Buy, growth, shrinkage).positive()
            && Scalar::of(0).at_most(fill_of(OrderSide::Buy, growth, shrinkage)),
        !shrinkage.positive() ==> !fill_of(OrderSide::Sell, growth, shrinkage).positive()
            && Scalar::of(0).at_most(fill_of(OrderSide::Sell, growth, shrinkage)),
{
}

/// Where the decimals hold each number that is computed, an order can be started, rolled back and
/// settled; a sale can always be started, and what reserved nothing can always be rolled back.
pub proof fn law_only_the_decimals_stand_against_an_order(
    guard: GuardState,
    ledger: Map<Seq<char>, MarketExposure>,
    order: FireOrder,
    reservation: Option<BudgetReservation>,
    filled: Scalar,
    decimals: Decimals,
    places: bool,
)
    ensures
        can_begin(guard, OrderSide::Sell, decimals, places),
        decimals.price is None || decimals.size is None ==> can_begin(
            guard,
            OrderSide::Buy,
            decimals,
            places,
        ),
        can_roll_back(guard, None),
        reservation is Some ==> (can_roll_back(guard, reservation) <==> Amount::difference(
            guard.spent,
            reservation->0.reserved(),
        ) is Some),
        filled.at_most(Scalar::of(EPSILON)) && reservation is None ==> can_settle(
            guard,
            ledger,
            order,
            reservation,
            filled,
            decimals,
        ),
        decimals.price is Some && decimals.size is Some ==> {
            let cost = Amount::product(decimals.price->0, decimals.size->0);
            let total = Amount::sum(guard.spent, cost->0);
            let entry = entry_of(ledger, order.token_id@);
            &&& cost is Some && total is Some ==> can_begin(guard, OrderSide::Buy, decimals, true)
            &&& cost is Some && total is Some && Amount::difference(total->0, cost->0) is Some
                ==> can_begin(guard, OrderSide::Buy, decimals, places)
            &&& order.signal.side == OrderSide::Buy && !filled.at_most(Scalar::of(EPSILON))
                && cost is Some && Amount::sum(entry.yes_qty, decimals.size->0) is Some
                && Amount::difference(entry.realized_pnl, cost->0) is Some ==> can_settle(
                guard,
                ledger,
                order,
                reservation,
                filled,
                decimals,
            )
            &&& order.signal.side == OrderSide::Sell && !filled.at_most(Scalar::of(EPSILON))
                && cost is Some && Amount::difference(entry.yes_qty, decimals.size->0) is Some
                && Amount::sum(entry.realized_pnl, cost->0) is Some && Amount::difference(
                guard.spent,
                cost->0,
            ) is Some ==> can_settle(guard, ledger, order, reservation, filled, decimals)
        },
{
}

/// What is held of either token of a market is what its settled purchases and sales come to: each
/// moves what is held of its own token by its size, and what is held of the other one not at all
/// (where the decimals hold the outcome without rounding).
pub proof fn law_what_is_held_is_what_was_settled(
    pre: GuardState,
    pre_ledger: Map<Seq<char>, MarketExposure>,
    order: FireOrder,
    key: Seq<char>,
    reservation: Option<BudgetReservation>,
    filled: Scalar,
    decimals: Decimals,
    position: Scalar,
    now: Scalar,
    post: GuardState,
    post_ledger: Map<Seq<char>, MarketExposure>,
    report: Report,
    size: Amount,
    market: MarketNames,
)
    requires
        settles(
            pre,
            pre_ledger,
            order,
            key,
            reservation,
            filled,
            decimals,
            position,
            now,
            post,
            post_ledger,
            report,
        ),
        !filled.at_most(Scalar::of(EPSILON)),
        decimals.size == Some(size),
        market.yes != market.no,
    ensures
        ({
            let before = held_of(pre_ledger, market);
            let after = held_of(post_ledger, market);
            let buys = order.signal.side == OrderSide::Buy;
            &&& order.token_id@ == market.yes ==> {
                &&& after.1 == before.1
                &&& buys && representable(before.0@ + size@) ==> after.0@ == before.0@ + size@
                &&& !buys && representable(before.0@ - size@) ==> after.0@ == before.0@ - size@
            }
            &&& order.token_id@ == market.no ==> {
                &&& after.0 == before.0
                &&& buys && representable(before.1@ + size@) ==> after.1@ == before.1@ + size@
                &&& !buys && representable(before.1@ - size@) ==> after.1@ == before.1@ - size@
            }
            &&& order.token_id@ != market.yes && order.token_id@ != market.no ==> after == before
        }),
{
}

/// However an order ends, its report names it and tells the position that is left, but nothing
/// below zero; it tells what was filled, with the reservation of a purchase, or that nothing was.
pub proof fn law_every_end_is_reported(
    pre: GuardState,
    pre_ledger: Map<Seq<char>, MarketExposure>,
    order: FireOrder,
    key: Seq<char>,
    reservation: Option<BudgetReservation>,
    filled: Scalar,
    decimals: Decimals,
    position: Scalar,
    now: Scalar,
    post: GuardState,
    post_ledger: Map<Seq<char>, MarketExposure>,
    report: Report,
    places: bool,
    begun: GuardState,
    step: FireStep,
)
    requires
        settles(
            pre,
            pre_ledger,
            order,
            key,
            reservation,
            filled,
            decimals,
            position,
            now,
            post,
            post_ledger,
            report,
        ),
        begins(pre, order, key, decimals, places, position, begun, step),
    ensures
        ({
            let done = !filled.at_most(Scalar::of(EPSILON));
            let early = step->Finished_0@;
            &&& report.token == order.token_id@
            &&& report.side == order.signal.side
            &&& report.price == order.signal.target_price
            &&& report.edge_hint == order.edge
            &&& report.success == done
            &&& done ==> report.size == filled && report.reservation == reservation
            &&& !done ==> report.size == Scalar::of(0) && report.reservation is None
            &&& position.positive() ==> report.synced_position == position
            &&& !position.positive() ==> !report.synced_position.positive()
            &&& step is Finished ==> {
                &&& early.token == order.token_id@
                &&& early.side == order.signal.side
                &&& early.price == order.signal.target_price
                &&& early.edge_hint == order.edge
                &&& !early.success && early.size == Scalar::of(0) && early.reservation is None
                &&& position.positive() ==> early.synced_position == position
                &&& !position.positive() ==> !early.synced_position.positive()
            }
        }),
{
}

/// One part that was placed in time is enough, however many others failed; without one, or too
/// late, the order was not placed.
pub proof fn law_one_placed_part_is_enough(in_time: bool, placed: Seq<bool>, at: int)
    requires
        0 <= at < placed.len(),
    ensures
        placed[at] ==> was_placed(true, placed),
        (forall|i: int| 0 <= i < placed.len() ==> !#[trigger] placed[i]) ==> !was_placed(
            in_time,
            placed,
        ),
        !was_placed(false, placed),
        !was_placed(in_time, Seq::empty()),
{
}

} // verus!
