use polystrike_engine::decimal::Amount;
use polystrike_engine::engine::fire::{
    filled_size, placement_succeeded, placement_timeout_secs, try_abandon, try_begin_fire,
    try_settle, Decimals, ExecutedOrderUpdate, FireStep,
};
use polystrike_engine::engine::iceberg::{
    at_least_one, iceberg_chunk_sizes, iceberg_plan, is_iceberg, IcebergPlan, ICEBERG_CHUNK_MIN_USD,
    ICEBERG_THRESHOLD_USD,
};
use polystrike_engine::engine::params::{
    edge_monitor_interval, enter_threshold, exit_threshold, max_buy_price, min_profit,
    order_fail_cooldown_secs, order_timeout_secs, pending_watchdog_secs,
    relative_market_offset_threshold, EngineParams,
};
use polystrike_engine::engine::state::{
    compute_edges_dual, held_quantities, hibernation_notice_is_due, is_interesting, monitor_is_due, Decision,
    FireOrder, PositionState, SideQuote, SkipReason, Tick, INTERESTING_EDGE,
};
use polystrike_engine::engine::task::{
    records_idle_price, sync_current_position, FillOutcome, SniperTask, TimerOutcome,
};
use polystrike_engine::models::types::OrderSide;
use polystrike_engine::risk::{BudgetReservation, InventoryManager, RiskGuard};
use polystrike_engine::scalar::Scalar;
use polystrike_engine::strategy::{SnipeSignal, SniperStrategy};
use rust_decimal::Decimal;

const SEC: u128 = 1_000_000_000;

fn amount(value: f64) -> Option<Amount> {
    Decimal::from_f64_retain(value).map(|d| Amount::new(d.mantissa(), d.scale()).unwrap())
}

fn decimal(a: Amount) -> Decimal {
    Decimal::from_i128_with_scale(a.mantissa(), a.scale())
}

fn scalar(x: f64) -> Scalar {
    Scalar::from_bits(x.to_bits())
}

fn decimals(price: f64, size: f64) -> Decimals {
    Decimals { price: amount(price), size: amount(size) }
}

fn params() -> EngineParams {
    EngineParams {
        enter_threshold: enter_threshold(None),
        relative_enter_threshold: scalar(0.002),
        exit_threshold: exit_threshold(None),
        min_profit: min_profit(None),
        max_buy_price: max_buy_price(None),
        order_timeout_secs: order_timeout_secs(None),
        pending_watchdog_secs: pending_watchdog_secs(None),
        order_fail_cooldown_secs: order_fail_cooldown_secs(None),
        edge_monitor_interval: edge_monitor_interval(None),
    }
}

fn quote(ask: f64, bid: f64, fair: f64, cost: f64, budget: f64) -> SideQuote {
    let shares = (budget / ask).floor();
    SideQuote {
        best_ask: scalar(ask),
        best_bid: scalar(bid),
        fair_value: scalar(fair),
        fair_less_ask: scalar(fair - ask),
        bid_less_fair: scalar(bid - fair),
        bid_less_cost: scalar(bid - cost),
        shares: scalar(shares),
        notional: scalar(shares * ask),
        held: amount(0.0),
        held_after: amount(shares),
    }
}

fn tick(yes: SideQuote, no: SideQuote) -> Tick {
    Tick {
        yes,
        no,
        current_position: scalar(0.0),
        max_budget: scalar(100.0),
        available_cash: scalar(100.0),
        snipe_size: amount(10.0),
        is_relative_strike: false,
    }
}

fn buying_tick() -> Tick {
    tick(quote(0.5, 0.49, 0.6, 0.0, 10.0), quote(0.5, 0.49, 0.4, 0.0, 10.0))
}

fn guard() -> RiskGuard {
    RiskGuard::new(amount(100.0))
}

fn empty_task() -> SniperTask {
    SniperTask::new("yes".to_string(), "no".to_string(), scalar(0.0), scalar(0.0))
}

fn fired(decision: Decision) -> FireOrder {
    match decision {
        Decision::Fire(order) => order,
        Decision::Skip(reason) => panic!("skipped: {:?}", reason),
    }
}

fn skipped(decision: Decision) -> SkipReason {
    match decision {
        Decision::Fire(_) => panic!("fired"),
        Decision::Skip(reason) => reason,
    }
}

fn order(side: OrderSide, price: f64, size: f64) -> FireOrder {
    FireOrder {
        token_id: "yes".to_string(),
        signal: SnipeSignal { side, target_price: scalar(price), size: scalar(size) },
        edge: scalar(0.1),
    }
}

fn update(
    side: OrderSide,
    price: f64,
    size: f64,
    synced: f64,
    success: bool,
    reservation: Option<BudgetReservation>,
) -> ExecutedOrderUpdate {
    ExecutedOrderUpdate {
        token_id: "yes".to_string(),
        side,
        price: scalar(price),
        size: scalar(size),
        synced_position: scalar(synced),
        edge_hint: scalar(0.1),
        success,
        reservation,
    }
}

#[test]
fn parameters_have_their_defaults() {
    assert_eq!(order_timeout_secs(None), 5);
    assert_eq!(pending_watchdog_secs(None), 8);
    assert_eq!(order_fail_cooldown_secs(None), 2);
    assert_eq!(edge_monitor_interval(None), 5000);
    assert_eq!(order_timeout_secs(Some("12")), 12);
    assert_eq!(pending_watchdog_secs(Some("soon")), 8);
    assert_eq!(order_fail_cooldown_secs(Some("-1")), 2);
    assert_eq!(edge_monitor_interval(Some("1")), 1);
    assert_eq!(enter_threshold(None), scalar(0.001));
    assert_eq!(exit_threshold(None), scalar(0.002));
    assert_eq!(min_profit(None), scalar(0.0005));
    assert_eq!(max_buy_price(None), scalar(0.90));
    assert_eq!(relative_market_offset_threshold(None), scalar(0.001));
    assert_eq!(enter_threshold(Some(scalar(0.5))), scalar(0.5));
    let params = params();
    assert_eq!(params.enter_threshold_effective(false), scalar(0.001));
    assert_eq!(params.enter_threshold_effective(true), scalar(0.002));
}

#[test]
fn edges_need_a_price() {
    let yes = quote(0.5, 0.25, 0.75, 0.0, 10.0);
    let no = quote(0.0, 0.0, 0.25, 0.0, 10.0);
    let (fv_yes, fv_no, edge_yes, edge_no, sell_yes, sell_no) = compute_edges_dual(&yes, &no);
    assert_eq!((fv_yes, fv_no), (scalar(0.75), scalar(0.25)));
    assert_eq!((edge_yes, edge_no), (scalar(0.25), scalar(f64::MIN)));
    assert_eq!((sell_yes, sell_no), (scalar(-0.5), scalar(f64::MIN)));
    assert_eq!(INTERESTING_EDGE, (-0.01f64).to_bits());
    assert!(is_interesting(scalar(-0.005), scalar(-1.0)));
    assert!(!is_interesting(scalar(-0.01), scalar(-0.02)));
    assert!(monitor_is_due(10_000, 5000) && !monitor_is_due(10_001, 5000));
    assert!(hibernation_notice_is_due(2000) && !hibernation_notice_is_due(2001));
}

#[test]
fn a_cheap_outcome_is_bought() {
    let mut guard = guard();
    let mut task = empty_task();
    let order = fired(task.try_on_tick(&mut guard, &params(), &buying_tick(), 5 * SEC).unwrap());
    assert_eq!(order.token_id, "yes");
    assert_eq!(order.signal.side, OrderSide::Buy);
    assert_eq!(order.signal.target_price, scalar(0.5));
    assert_eq!(order.signal.size, scalar(20.0));
    assert_eq!(order.edge, scalar(0.6 - 0.5));
    assert_eq!(task.tick_count(), 1);
    assert!(guard.is_global_buy_in_flight() && guard.is_token_buy_in_flight("yes"));
    assert!(matches!(
        task.state(),
        PositionState::PendingBuy { token_id, entered_at } if token_id == "yes" && *entered_at == 5 * SEC
    ));
    assert_eq!(
        skipped(task.try_on_tick(&mut guard, &params(), &buying_tick(), 6 * SEC).unwrap()),
        SkipReason::OrderPending
    );
    assert_eq!(task.tick_count(), 2);
}

#[test]
fn the_better_edge_wins() {
    let mut task = empty_task();
    let t = tick(quote(0.5, 0.4, 0.51, 0.0, 10.0), quote(0.25, 0.2, 0.49, 0.0, 10.0));
    let order = fired(task.try_on_tick(&mut guard(), &params(), &t, 0).unwrap());
    assert_eq!(order.token_id, "no");
    assert_eq!(order.signal.size, scalar(40.0));
}

#[test]
fn every_reason_not_to_buy() {
    let p = params();
    let skip = |t: &Tick, guard: &mut RiskGuard| {
        skipped(empty_task().try_on_tick(guard, &p, t, 0).unwrap())
    };
    let good = buying_tick();
    let mut t = good;
    t.available_cash = scalar(0.99);
    assert_eq!(skip(&t, &mut guard()), SkipReason::Hibernating);
    t.max_budget = scalar(0.0);
    assert!(matches!(
        empty_task().try_on_tick(&mut guard(), &p, &t, 0).unwrap(),
        Decision::Fire(_)
    ));
    let mut frozen = guard();
    frozen.update_circuit_breaker(scalar(0.5));
    assert_eq!(skip(&good, &mut frozen), SkipReason::Frozen);
    let mut t = good;
    t.yes = quote(0.5, 0.4, 0.501, 0.0, 10.0);
    t.is_relative_strike = true;
    assert_eq!(skip(&t, &mut guard()), SkipReason::NoEdge);
    let mut t = good;
    t.yes = quote(0.91, 0.4, 0.99, 0.0, 10.0);
    assert_eq!(skip(&t, &mut guard()), SkipReason::NoEdge);
    let mut t = good;
    t.yes = quote(0.5, 0.4, 0.6, 0.0, 0.4);
    assert_eq!(skip(&t, &mut guard()), SkipReason::BudgetTooSmall);
    t.yes = quote(0.5, 0.4, 0.6, 0.0, 0.6);
    assert_eq!(skip(&t, &mut guard()), SkipReason::NotionalTooSmall);
    let mut capped = guard().with_max_exposure_per_market(amount(19.0));
    assert_eq!(skip(&good, &mut capped), SkipReason::ExposureLimit);
    let mut busy = guard();
    busy.try_acquire_global_buy_slot();
    assert_eq!(skip(&good, &mut busy), SkipReason::GlobalSlotTaken);
    let mut taken = guard();
    taken.try_acquire_token_buy_slot("yes");
    assert_eq!(skip(&good, &mut taken), SkipReason::MarketSlotTaken);
    assert!(!taken.is_global_buy_in_flight() && taken.is_token_buy_in_flight("yes"));
    let mut poor = RiskGuard::new(amount(9.0));
    assert_eq!(skip(&good, &mut poor), SkipReason::Unaffordable);
    assert!(!poor.is_global_buy_in_flight() && !poor.is_token_buy_in_flight("yes"));
    let mut t = good;
    t.snipe_size = Some(Amount::max_value());
    let mut spent = RiskGuard::new(None);
    spent.reserve_budget(amount(1.0), amount(1.0)).unwrap();
    assert!(empty_task().try_on_tick(&mut spent, &p, &t, 0).is_none());
}

#[test]
fn a_position_is_sold_for_edge_or_profit() {
    let holding = || SniperTask::new("yes".to_string(), "no".to_string(), scalar(8.0), scalar(0.0));
    let mut t = tick(quote(0.6, 0.55, 0.5, 0.0, 10.0), quote(0.5, 0.4, 0.5, 0.0, 10.0));
    t.current_position = scalar(5.0);
    let mut task = holding();
    assert_eq!(task.token_to_sync(), Some("yes".to_string()));
    let mut g = guard();
    let order = fired(task.try_on_tick(&mut g, &params(), &t, 3 * SEC).unwrap());
    assert_eq!(order.signal.side, OrderSide::Sell);
    assert_eq!(order.signal.size, scalar(5.0));
    assert_eq!(order.signal.target_price, scalar(0.55));
    assert!(!g.is_global_buy_in_flight());
    assert!(task.token_to_sync().is_none());
    t.current_position = scalar(0.0);
    assert_eq!(
        skipped(holding().try_on_tick(&mut g, &params(), &t, 0).unwrap()),
        SkipReason::NoExit
    );
    t.current_position = scalar(5.0);
    t.yes.best_bid = scalar(0.0);
    assert_eq!(
        skipped(holding().try_on_tick(&mut g, &params(), &t, 0).unwrap()),
        SkipReason::NoExit
    );
    t.yes = quote(0.6, 0.4, 0.5, 0.4, 10.0);
    assert_eq!(
        skipped(holding().try_on_tick(&mut g, &params(), &t, 0).unwrap()),
        SkipReason::NoExit
    );
    t.yes = quote(0.6, 0.4, 0.5, 0.3, 10.0);
    assert!(matches!(
        holding().try_on_tick(&mut g, &params(), &t, 0).unwrap(),
        Decision::Fire(_)
    ));
}

#[test]
fn tasks_start_with_what_is_held() {
    let both = SniperTask::new("yes".to_string(), "no".to_string(), scalar(1.0), scalar(2.0));
    assert!(matches!(both.state(), PositionState::Holding { token_id, .. } if token_id == "yes"));
    let no = SniperTask::new("yes".to_string(), "no".to_string(), scalar(0.0), scalar(2.0));
    assert!(matches!(
        no.state(),
        PositionState::Holding { token_id, buy_price, amount }
            if token_id == "no" && *buy_price == scalar(0.0) && *amount == scalar(2.0)
    ));
    assert_eq!(no.tokens_to_cancel(), vec!["yes".to_string(), "no".to_string()]);
    assert_eq!(no.market().market_key, "yes");
    assert_eq!(sync_current_position(Some(scalar(3.0)), scalar(9.0)), scalar(3.0));
    assert_eq!(sync_current_position(None, scalar(-9.0)), scalar(0.0));
    assert_eq!(sync_current_position(None, scalar(9.0)), scalar(9.0));
    assert!(records_idle_price(scalar(1.0)) && !records_idle_price(scalar(0.0)));
}

#[test]
fn a_whole_purchase_and_sale() {
    let mut g = guard();
    let mut inventory = InventoryManager::new();
    let mut task = empty_task();
    let order = fired(task.try_on_tick(&mut g, &params(), &buying_tick(), 0).unwrap());
    let step =
        try_begin_fire(&mut g, &order, "yes", decimals(0.5, 20.0), false, true, scalar(0.0)).unwrap();
    let reservation = match step {
        FireStep::Place(reservation) => reservation,
        FireStep::Finished(_) => panic!("finished"),
    };
    assert_eq!(decimal(g.current_spent()), Decimal::new(10, 0));
    let filled = filled_size(OrderSide::Buy, scalar(16.0), scalar(-16.0));
    let report = try_settle(
        &mut g,
        &mut inventory,
        &order,
        "yes",
        reservation,
        filled,
        decimals(0.5, 16.0),
        scalar(16.0),
        scalar(77.0),
    )
    .unwrap();
    assert!(report.success && !g.is_global_buy_in_flight() && !g.is_token_buy_in_flight("yes"));
    assert_eq!(report.size, scalar(16.0));
    assert_eq!(decimal(inventory.get_exposure("yes").yes_qty), Decimal::new(16, 0));
    let outcome =
        task.try_on_fill(&mut g, report, decimals(0.5, 16.0), scalar(0.08), SEC).unwrap();
    assert_eq!(outcome, FillOutcome::Entered);
    assert_eq!(decimal(g.current_spent()), Decimal::new(8, 0));
    assert!(matches!(
        task.state(),
        PositionState::Holding { buy_price, amount, .. }
            if *buy_price == scalar(0.5) && *amount == scalar(16.0)
    ));

    let mut t = tick(quote(0.8, 0.75, 0.6, 0.5, 10.0), quote(0.5, 0.2, 0.4, 0.5, 10.0));
    t.current_position = scalar(16.0);
    let order = fired(task.try_on_tick(&mut g, &params(), &t, 9 * SEC).unwrap());
    let step =
        try_begin_fire(&mut g, &order, "yes", decimals(0.75, 16.0), false, true, scalar(16.0)).unwrap();
    assert!(matches!(step, FireStep::Place(None)));
    let report = try_settle(
        &mut g,
        &mut inventory,
        &order,
        "yes",
        None,
        filled_size(OrderSide::Sell, scalar(-16.0), scalar(16.0)),
        decimals(0.75, 16.0),
        scalar(0.0),
        scalar(78.0),
    )
    .unwrap();
    assert_eq!(decimal(g.current_spent()), Decimal::ZERO);
    assert_eq!(decimal(inventory.get_exposure("yes").realized_pnl), Decimal::new(4, 0));
    let outcome = task.try_on_fill(&mut g, report, decimals(0.75, 16.0), scalar(-0.04), 0).unwrap();
    assert_eq!(outcome, FillOutcome::Exited);
    assert!(matches!(task.state(), PositionState::Empty));
}

#[test]
fn orders_that_are_not_placed_give_everything_back() {
    for (dry_run, has_client, budget) in [(true, true, 100.0), (false, false, 100.0), (false, true, 9.0)] {
        let mut g = RiskGuard::new(amount(budget));
        g.try_acquire_global_buy_slot();
        g.try_acquire_token_buy_slot("yes");
        let o = order(OrderSide::Buy, 0.5, 20.0);
        let step =
            try_begin_fire(&mut g, &o, "yes", decimals(0.5, 20.0), dry_run, has_client, scalar(-3.0))
                .unwrap();
        match step {
            FireStep::Finished(report) => {
                assert!(!report.success && report.reservation.is_none());
                assert_eq!(report.size, scalar(0.0));
                assert_eq!(report.synced_position, scalar(0.0));
                assert_eq!(report.price, scalar(0.5));
            }
            FireStep::Place(_) => panic!("placed"),
        }
        assert_eq!(decimal(g.current_spent()), Decimal::ZERO);
        assert!(!g.is_global_buy_in_flight() && !g.is_token_buy_in_flight("yes"));
    }
    let mut g = guard();
    let o = order(OrderSide::Sell, 0.5, 20.0);
    let step = try_begin_fire(&mut g, &o, "yes", decimals(0.5, 20.0), true, true, scalar(4.0)).unwrap();
    assert!(matches!(step, FireStep::Finished(r) if r.synced_position == scalar(4.0)));
}

#[test]
fn a_refused_or_empty_order_is_rolled_back() {
    let mut g = guard();
    let o = order(OrderSide::Buy, 0.5, 20.0);
    let held = g.reserve_budget(amount(0.5), amount(20.0)).unwrap();
    g.try_acquire_global_buy_slot();
    g.try_acquire_token_buy_slot("yes");
    let report = try_abandon(&mut g, &o, "yes", Some(held), scalar(1.0)).unwrap();
    assert!(!report.success && report.synced_position == scalar(1.0));
    assert_eq!(decimal(g.current_spent()), Decimal::ZERO);
    assert!(!g.is_global_buy_in_flight());

    let mut inventory = InventoryManager::new();
    let held = g.reserve_budget(amount(0.5), amount(20.0)).unwrap();
    g.try_acquire_global_buy_slot();
    let report = try_settle(
        &mut g,
        &mut inventory,
        &o,
        "yes",
        Some(held),
        scalar(f64::EPSILON),
        decimals(0.5, f64::EPSILON),
        scalar(-1.0),
        scalar(1.0),
    )
    .unwrap();
    assert!(!report.success && report.synced_position == scalar(0.0));
    assert_eq!(decimal(g.current_spent()), Decimal::ZERO);
    assert!(inventory.market_ids().is_empty() && !g.is_global_buy_in_flight());
}

#[test]
fn placements_count_when_in_time() {
    assert!(placement_succeeded(true, &vec![false, true]));
    assert!(!placement_succeeded(true, &vec![false, false]));
    assert!(!placement_succeeded(false, &vec![true]));
    assert!(!placement_succeeded(true, &vec![]));
    assert_eq!(placement_timeout_secs(true, &params()), 1);
    assert_eq!(placement_timeout_secs(false, &params()), 5);
    assert_eq!(filled_size(OrderSide::Buy, scalar(-2.0), scalar(2.0)), scalar(0.0));
    assert_eq!(filled_size(OrderSide::Sell, scalar(-2.0), scalar(2.0)), scalar(2.0));
}

#[test]
fn failures_start_a_cooldown() {
    let mut g = guard();
    let mut task = empty_task();
    let _ = fired(task.try_on_tick(&mut g, &params(), &buying_tick(), 0).unwrap());
    g.release_global_buy_slot();
    let outcome = task
        .try_on_fill(&mut g, update(OrderSide::Buy, 0.5, 0.0, 0.0, false, None), decimals(0.5, 0.0), scalar(0.0), SEC)
        .unwrap();
    assert_eq!(outcome, FillOutcome::BuyFailed { announced: false });
    assert!(matches!(task.state(), PositionState::Empty));
    assert!(!g.is_token_buy_in_flight("yes"));
    let p = params();
    assert_eq!(
        skipped(task.try_on_tick(&mut g, &p, &buying_tick(), 3 * SEC - 1).unwrap()),
        SkipReason::CoolingDown
    );
    let _ = fired(task.try_on_tick(&mut g, &p, &buying_tick(), 3 * SEC).unwrap());
}

#[test]
fn failed_sales_keep_the_position() {
    let mut g = guard();
    let mut task = SniperTask::new("yes".to_string(), "no".to_string(), scalar(8.0), scalar(0.0));
    let mut t = tick(quote(0.6, 0.55, 0.5, 0.0, 10.0), quote(0.5, 0.4, 0.5, 0.0, 10.0));
    t.current_position = scalar(5.0);
    let _ = fired(task.try_on_tick(&mut g, &params(), &t, 0).unwrap());
    let ignored = update(OrderSide::Buy, 0.5, 1.0, 1.0, true, None);
    assert_eq!(
        task.try_on_fill(&mut g, ignored, decimals(0.5, 1.0), scalar(0.0), 0).unwrap(),
        FillOutcome::Ignored
    );
    let failed = update(OrderSide::Sell, 0.55, 0.0, 5.0, false, None);
    assert_eq!(
        task.try_on_fill(&mut g, failed, decimals(0.55, 0.0), scalar(0.0), 0).unwrap(),
        FillOutcome::SellFailed
    );
    assert!(matches!(task.state(), PositionState::Holding { amount, .. } if *amount == scalar(8.0)));
    let _ = fired(task.try_on_tick(&mut g, &params(), &t, 9 * SEC).unwrap());
    let part = update(OrderSide::Sell, 0.55, 3.0, 2.0, true, None);
    assert_eq!(
        task.try_on_fill(&mut g, part, decimals(0.55, 3.0), scalar(0.3), 0).unwrap(),
        FillOutcome::Exited
    );
    assert!(g.is_frozen());
    assert!(matches!(task.state(), PositionState::Holding { amount, .. } if *amount == scalar(2.0)));
}

#[test]
fn the_timer_unlocks_after_eight_seconds() {
    let mut g = guard();
    let mut task = empty_task();
    let _ = fired(task.try_on_tick(&mut g, &params(), &buying_tick(), 10 * SEC).unwrap());
    assert_eq!(task.on_timer(&mut g, &params(), 18 * SEC), TimerOutcome::Quiet);
    assert!(g.is_token_buy_in_flight("yes"));
    assert_eq!(task.on_timer(&mut g, &params(), 18 * SEC + 1), TimerOutcome::UnlockedBuy);
    assert!(!g.is_token_buy_in_flight("yes"));
    assert!(matches!(task.state(), PositionState::Empty));
    assert_eq!(task.on_timer(&mut g, &params(), 99 * SEC), TimerOutcome::Quiet);

    let mut task = SniperTask::new("yes".to_string(), "no".to_string(), scalar(8.0), scalar(0.0));
    let mut t = tick(quote(0.6, 0.55, 0.5, 0.0, 10.0), quote(0.5, 0.4, 0.5, 0.0, 10.0));
    t.current_position = scalar(5.0);
    let _ = fired(task.try_on_tick(&mut g, &params(), &t, 0).unwrap());
    assert_eq!(task.on_timer(&mut g, &params(), 9 * SEC), TimerOutcome::UnlockedSell);
    assert!(matches!(task.state(), PositionState::Holding { amount, .. } if *amount == scalar(8.0)));
}

#[test]
fn a_late_fill_still_enters() {
    let mut g = guard();
    let mut task = empty_task();
    let held = g.reserve_budget(amount(0.5), amount(20.0)).unwrap();
    let late = update(OrderSide::Buy, 0.5, 20.0, 20.0, true, Some(held));
    assert_eq!(
        task.try_on_fill(&mut g, late, decimals(0.5, 20.0), scalar(0.1), 0).unwrap(),
        FillOutcome::Entered
    );
    assert_eq!(decimal(g.current_spent()), Decimal::new(10, 0));
}

#[test]
fn large_purchases_are_split() {
    assert_eq!(ICEBERG_THRESHOLD_USD, 5.0f64.to_bits());
    assert_eq!(ICEBERG_CHUNK_MIN_USD, 3.0f64.to_bits());
    assert!(is_iceberg(OrderSide::Buy, scalar(5.01)));
    assert!(!is_iceberg(OrderSide::Buy, scalar(5.0)));
    assert!(!is_iceberg(OrderSide::Sell, scalar(50.0)));
    assert_eq!(at_least_one(0), 1);
    let plan = |size: f64, price: f64| {
        let usd = size * price;
        let fewest = (usd / 5.0).ceil() as usize;
        let chunk = usd / fewest.max(1) as f64;
        let most = (usd / 3.0).ceil() as usize;
        iceberg_plan(scalar(size), scalar(price), scalar(usd), fewest, scalar(chunk), most)
    };
    assert_eq!(plan(0.0, 0.5), IcebergPlan::Nothing);
    assert_eq!(plan(10.0, -0.5), IcebergPlan::Nothing);
    assert_eq!(plan(10.0, 0.5), IcebergPlan::Whole);
    assert_eq!(plan(40.0, 0.5), IcebergPlan::Split(4));
    assert_eq!(plan(11.0, 0.5), IcebergPlan::Split(2));
    let sizes = iceberg_chunk_sizes(IcebergPlan::Split(3), scalar(9.0), scalar(3.0), scalar(2.5));
    assert_eq!(sizes, vec![scalar(3.0), scalar(3.0), scalar(2.5)]);
    let sizes = iceberg_chunk_sizes(IcebergPlan::Split(3), scalar(9.0), scalar(3.0), scalar(0.0));
    assert_eq!(sizes, vec![scalar(3.0), scalar(3.0)]);
    let sizes = iceberg_chunk_sizes(IcebergPlan::Split(2), scalar(9.0), scalar(0.0), scalar(-1.0));
    assert_eq!(sizes, vec![scalar(9.0)]);
    assert_eq!(
        iceberg_chunk_sizes(IcebergPlan::Whole, scalar(9.0), scalar(1.0), scalar(1.0)),
        vec![scalar(9.0)]
    );
    assert!(iceberg_chunk_sizes(IcebergPlan::Nothing, scalar(9.0), scalar(1.0), scalar(1.0)).is_empty());
}

#[test]
fn decided_outcomes_have_a_plain_price() {
    let price = |spot: f64, strike: f64, time: f64, vol: f64| {
        SniperStrategy::calculate_binary_call_price(
            scalar(spot),
            scalar(strike),
            scalar(time),
            scalar(vol),
            scalar(0.37),
        )
    };
    assert_eq!(price(70_000.0, 65_000.0, 0.0, 0.5), scalar(1.0));
    assert_eq!(price(65_000.0, 65_000.0, -1.0, 0.5), scalar(1.0));
    assert_eq!(price(60_000.0, 65_000.0, 0.0, 0.5), scalar(0.0));
    assert_eq!(price(60_000.0, 65_000.0, 0.1, 0.0), scalar(0.0));
    assert_eq!(price(1.0, 0.0, 0.1, 0.5), scalar(1.0));
    assert_eq!(price(60_000.0, 65_000.0, 0.1, 0.5), scalar(0.37));
    assert_eq!(SniperStrategy::model_time(scalar(0.0)), scalar(1e-10));
    assert_eq!(SniperStrategy::model_time(scalar(0.25)), scalar(0.25));
    let strategy = SniperStrategy::default();
    assert_eq!(strategy.strike_price, scalar(72_000.0));
    assert_eq!(strategy.snipe_size, scalar(100.0));
    assert_eq!(strategy.expiry_timestamp, 0);
    assert_eq!(strategy.volatility, scalar(0.5));
    let strategy = SniperStrategy::new(scalar(1.0), scalar(2.0), 1000, scalar(3.0));
    assert_eq!(strategy.remaining_seconds(400), 600);
    assert_eq!(strategy.remaining_seconds(1400), 0);
}

#[test]
fn only_one_market_buys_at_a_time() {
    let mut g = guard();
    let mut first = empty_task();
    let mut second =
        SniperTask::new("up".to_string(), "down".to_string(), scalar(0.0), scalar(0.0));
    let _ = fired(first.try_on_tick(&mut g, &params(), &buying_tick(), 0).unwrap());
    assert_eq!(
        skipped(second.try_on_tick(&mut g, &params(), &buying_tick(), 0).unwrap()),
        SkipReason::GlobalSlotTaken
    );
    g.release_global_buy_slot();
    let order = fired(second.try_on_tick(&mut g, &params(), &buying_tick(), 0).unwrap());
    assert_eq!(order.token_id, "up");
}

#[test]
fn ticks_unlock_what_is_stuck() {
    let mut g = guard();
    let mut task = empty_task();
    let _ = fired(task.try_on_tick(&mut g, &params(), &buying_tick(), 0).unwrap());
    g.release_global_buy_slot();
    assert_eq!(
        skipped(task.try_on_tick(&mut g, &params(), &buying_tick(), 8 * SEC).unwrap()),
        SkipReason::OrderPending
    );
    let order = fired(task.try_on_tick(&mut g, &params(), &buying_tick(), 8 * SEC + 1).unwrap());
    assert_eq!(order.signal.side, OrderSide::Buy);
    assert!(matches!(
        task.state(),
        PositionState::PendingBuy { entered_at, .. } if *entered_at == 8 * SEC + 1
    ));
    g.release_global_buy_slot();
    let mut quiet = buying_tick();
    quiet.yes = quote(0.5, 0.4, 0.5, 0.0, 10.0);
    assert_eq!(
        skipped(task.try_on_tick(&mut g, &params(), &quiet, 99 * SEC).unwrap()),
        SkipReason::NoEdge
    );
    assert!(matches!(task.state(), PositionState::Empty));
    assert!(!g.is_token_buy_in_flight("yes"));

    let mut task = SniperTask::new("yes".to_string(), "no".to_string(), scalar(8.0), scalar(0.0));
    let mut t = tick(quote(0.6, 0.55, 0.5, 0.0, 10.0), quote(0.5, 0.4, 0.5, 0.0, 10.0));
    t.current_position = scalar(5.0);
    let _ = fired(task.try_on_tick(&mut g, &params(), &t, 0).unwrap());
    let order = fired(task.try_on_tick(&mut g, &params(), &t, 9 * SEC).unwrap());
    assert_eq!(order.signal.side, OrderSide::Sell);
    assert_eq!((order.token_id.as_str(), order.signal.size), ("yes", scalar(5.0)));
}

#[test]
fn bought_shares_of_either_token_count_as_held() {
    let mut g = guard().with_max_exposure_per_market(amount(50.0));
    let mut inventory = InventoryManager::new();
    let task = empty_task();
    let mut o = order(OrderSide::Buy, 0.25, 40.0);
    o.token_id = "no".to_string();
    let held = g.reserve_budget(amount(0.25), amount(40.0)).unwrap();
    let report = try_settle(
        &mut g,
        &mut inventory,
        &o,
        "yes",
        Some(held),
        scalar(40.0),
        decimals(0.25, 40.0),
        scalar(40.0),
        scalar(1.0),
    )
    .unwrap();
    assert!(report.success);
    let (yes, no) = held_quantities(&inventory, task.market());
    assert_eq!(decimal(yes), Decimal::ZERO);
    assert_eq!(decimal(no), Decimal::new(40, 0));

    let mut t = tick(quote(0.5, 0.4, 0.3, 0.0, 10.0), quote(0.5, 0.4, 0.7, 0.0, 10.0));
    t.no.held = amount(40.0);
    t.no.held_after = amount(40.0 + 20.0);
    assert_eq!(
        skipped(empty_task().try_on_tick(&mut g, &params(), &t, 0).unwrap()),
        SkipReason::ExposureLimit
    );
    t.no.held = amount(0.0);
    t.no.held_after = amount(20.0);
    let _ = fired(empty_task().try_on_tick(&mut g, &params(), &t, 0).unwrap());
}

#[test]
fn an_unknown_token_has_no_orders_to_cancel() {
    let task = SniperTask::new("yes".to_string(), String::new(), scalar(0.0), scalar(0.0));
    assert_eq!(task.tokens_to_cancel(), vec!["yes".to_string()]);
}

#[test]
fn shares_are_added_to_the_outcome_that_is_bought() {
    let decide = |t: &Tick| {
        let mut g = guard().with_max_exposure_per_market(amount(50.0));
        empty_task().try_on_tick(&mut g, &params(), t, 0).unwrap()
    };
    let _ = fired(decide(&buying_tick()));
    let mut t = buying_tick();
    t.yes.held_after = amount(51.0);
    assert_eq!(skipped(decide(&t)), SkipReason::ExposureLimit);

    // What is held of the other token counts as it is, not with its own shares.
    let mut t = buying_tick();
    t.no.held_after = amount(51.0);
    let _ = fired(decide(&t));
    t.no.held = amount(51.0);
    assert_eq!(skipped(decide(&t)), SkipReason::ExposureLimit);

    let mut t = tick(quote(0.5, 0.4, 0.3, 0.0, 10.0), quote(0.5, 0.4, 0.7, 0.0, 10.0));
    t.yes.held_after = amount(51.0);
    let _ = fired(decide(&t));
    t.yes.held = amount(51.0);
    assert_eq!(skipped(decide(&t)), SkipReason::ExposureLimit);
}

#[test]
fn the_price_follows_the_spot() {
    let price = |spot: f64, time: f64, modelled: f64| {
        SniperStrategy::calculate_binary_call_price(
            scalar(spot),
            scalar(100.0),
            scalar(time),
            scalar(0.5),
            scalar(modelled),
        )
    };
    assert_eq!(price(99.0, 0.0, 0.4).to_bits(), 0.0f64.to_bits());
    assert_eq!(price(100.0, 0.0, 0.6).to_bits(), 1.0f64.to_bits());
    assert_eq!(price(99.0, 0.1, 0.4).to_bits(), 0.4f64.to_bits());
    assert_eq!(price(100.0, 0.1, 0.6).to_bits(), 0.6f64.to_bits());
}

#[test]
fn short_times_count_as_the_shortest() {
    let time = |t: f64| SniperStrategy::model_time(scalar(t)).to_bits();
    assert_eq!(time(1e-12), 1e-10f64.to_bits());
    assert_eq!(time(1e-10), 1e-10f64.to_bits());
    assert_eq!(time(1e-3), 1e-3f64.to_bits());
}
