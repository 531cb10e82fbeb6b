use polystrike_engine::decimal::Amount;
use polystrike_engine::models::types::OrderSide;
use polystrike_engine::risk::inventory::{total_exposure, total_realized};
use polystrike_engine::risk::watchdog::SideExposure;
use polystrike_engine::risk::{InventoryManager, MarketExposure, Watchdog};
use polystrike_engine::scalar::Scalar;
use rust_decimal::Decimal;

fn amount(value: f64) -> Option<Amount> {
    Decimal::from_f64_retain(value).map(|d| Amount::new(d.mantissa(), d.scale()).unwrap())
}

fn decimal(a: Amount) -> Decimal {
    Decimal::from_i128_with_scale(a.mantissa(), a.scale())
}

fn scalar(x: f64) -> Scalar {
    Scalar::from_bits(x.to_bits())
}

#[test]
fn a_fill_moves_quantity_result_and_time() {
    let mut inventory = InventoryManager::new();
    assert!(inventory.try_apply_fill("m", true, OrderSide::Buy, amount(10.0), amount(0.5), scalar(7.0)));
    let e = inventory.get_exposure("m");
    assert_eq!(decimal(e.yes_qty), Decimal::new(10, 0));
    assert_eq!(decimal(e.no_qty), Decimal::ZERO);
    assert_eq!(decimal(e.realized_pnl), Decimal::new(-5, 0));
    assert_eq!(e.last_local_fill_timestamp, scalar(7.0));
    assert!(inventory.try_apply_fill("m", true, OrderSide::Sell, amount(10.0), amount(0.75), scalar(9.0)));
    let e = inventory.get_exposure("m");
    assert_eq!(decimal(e.yes_qty), Decimal::ZERO);
    assert_eq!(decimal(e.realized_pnl), Decimal::new(25, 1));
    assert_eq!(inventory.get_last_local_fill_timestamp("m"), scalar(9.0));
    assert_eq!(inventory.get_last_local_fill_timestamp("other"), scalar(0.0));
}

#[test]
fn the_no_side_is_kept_apart() {
    let mut inventory = InventoryManager::default();
    assert!(inventory.try_apply_fill("m", false, OrderSide::Buy, amount(4.0), amount(0.25), scalar(1.0)));
    assert!(inventory.try_add_fill("m", true, OrderSide::Buy, amount(1.5), scalar(2.0)));
    assert!(inventory.try_add_fill("m", false, OrderSide::Sell, amount(1.0), scalar(3.0)));
    let (yes, no) = inventory.get_exposure_qty("m");
    assert_eq!(decimal(yes), Decimal::new(15, 1));
    assert_eq!(decimal(no), Decimal::new(3, 0));
    assert_eq!(decimal(inventory.try_get_net_exposure("m").unwrap()), Decimal::new(-15, 1));
    assert_eq!(decimal(inventory.get_net_exposure("other")), Decimal::ZERO);
    assert_eq!(inventory.get_last_local_fill_timestamp("m"), scalar(3.0));
    assert_eq!(decimal(inventory.get_exposure("m").realized_pnl), Decimal::new(-1, 0));
}

#[test]
fn an_unreadable_size_counts_as_zero() {
    let mut inventory = InventoryManager::new();
    inventory.apply_fill("m", true, OrderSide::Buy, None, amount(0.5), scalar(1.0));
    inventory.add_fill("m", true, OrderSide::Sell, None, scalar(2.0));
    let e = inventory.get_exposure("m");
    assert_eq!(decimal(e.yes_qty), Decimal::ZERO);
    assert_eq!(decimal(e.realized_pnl), Decimal::ZERO);
    assert_eq!(e.last_local_fill_timestamp, scalar(2.0));
}

#[test]
fn pending_notional_is_never_negative() {
    let mut inventory = InventoryManager::new();
    inventory.update_pending_buy_notional("m", true, amount(3.5));
    inventory.update_pending_buy_notional("m", false, amount(-3.5));
    let e = inventory.get_exposure("m");
    assert_eq!(decimal(e.pending_yes_buy_notional), Decimal::new(35, 1));
    assert_eq!(decimal(e.pending_no_buy_notional), Decimal::ZERO);
    inventory.update_pending_buy_notional("m", true, None);
    assert_eq!(decimal(inventory.get_exposure("m").pending_yes_buy_notional), Decimal::ZERO);
}

#[test]
fn reconciliation_overwrites_only_the_quantities() {
    let mut inventory = InventoryManager::new();
    assert!(inventory.try_apply_fill("m", true, OrderSide::Buy, amount(2.0), amount(0.5), scalar(5.0)));
    inventory.update_pending_buy_notional("m", true, amount(1.0));
    inventory.apply_reconciliation_snapshot("m", amount(8.0), amount(3.0));
    let e = inventory.get_exposure("m");
    assert_eq!(decimal(e.yes_qty), Decimal::new(8, 0));
    assert_eq!(decimal(e.no_qty), Decimal::new(3, 0));
    assert_eq!(decimal(e.pending_yes_buy_notional), Decimal::new(1, 0));
    assert_eq!(decimal(e.realized_pnl), Decimal::new(-1, 0));
    assert_eq!(e.last_local_fill_timestamp, scalar(5.0));
}

#[test]
fn totals_are_over_all_markets() {
    let mut inventory = InventoryManager::new();
    for (market, yes, no) in [("a", 1.0, 2.0), ("b", 4.0, 8.0), ("c", 16.0, 32.0)] {
        inventory.apply_reconciliation_snapshot(market, amount(yes), amount(no));
    }
    inventory.update_pending_buy_notional("a", true, amount(64.0));
    inventory.update_pending_buy_notional("b", false, amount(128.0));
    assert_eq!(decimal(inventory.get_global_exposure().unwrap()), Decimal::new(255, 0));
    assert_eq!(
        decimal(inventory.get_global_exposure_excluding("b").unwrap()),
        Decimal::new(115, 0)
    );
    assert_eq!(
        decimal(inventory.get_global_exposure_excluding("none").unwrap()),
        Decimal::new(255, 0)
    );
    assert!(inventory.try_apply_fill("a", true, OrderSide::Sell, amount(1.0), amount(0.5), scalar(0.0)));
    assert!(inventory.try_apply_fill("c", true, OrderSide::Buy, amount(1.0), amount(0.75), scalar(0.0)));
    assert_eq!(decimal(inventory.get_total_realized_pnl().unwrap()), Decimal::new(-25, 2));
    let mut ids = inventory.market_ids();
    ids.sort();
    assert_eq!(ids, ["a", "b", "c"]);
    let mut all = inventory.snapshot_all();
    all.sort_by(|x, y| x.0.cmp(&y.0));
    assert_eq!(all.len(), 3);
    assert_eq!(all[1].0, "b");
    assert_eq!(decimal(all[1].1.pending_no_buy_notional), Decimal::new(128, 0));
}

#[test]
fn totals_follow_the_entries_given() {
    let mut e = MarketExposure::default();
    e.yes_qty = Amount::one();
    e.realized_pnl = Amount::new(-5, 1).unwrap();
    let entries = vec![("x".to_string(), e), ("y".to_string(), e)];
    assert_eq!(decimal(total_exposure(&entries, None).unwrap()), Decimal::new(2, 0));
    assert_eq!(decimal(total_exposure(&entries, Some("x")).unwrap()), Decimal::new(1, 0));
    assert_eq!(decimal(total_realized(&entries).unwrap()), Decimal::new(-1, 0));
    assert_eq!(decimal(total_exposure(&vec![], None).unwrap()), Decimal::ZERO);
}

#[test]
fn what_the_ledger_cannot_hold_is_reported() {
    let mut inventory = InventoryManager::new();
    let max = Some(Amount::max_value());
    inventory.apply_reconciliation_snapshot("m", max, Amount::new(-1, 0));
    assert!(inventory.try_get_net_exposure("m").is_none());
    assert!(!inventory.try_add_fill("m", true, OrderSide::Buy, amount(1.0), scalar(1.0)));
    assert!(!inventory.try_apply_fill("m", false, OrderSide::Buy, max, max, scalar(1.0)));
    assert!(!inventory.can_apply_fill("m", true, OrderSide::Buy, amount(1.0), amount(1.0)));
    assert_eq!(inventory.get_last_local_fill_timestamp("m"), scalar(0.0));
    inventory.apply_reconciliation_snapshot("n", max, max);
    assert!(inventory.get_global_exposure().is_none());
}

fn snapshot(market_id: &str, yes: f64, no: f64) -> SideExposure {
    SideExposure { market_id: market_id.to_string(), yes_qty: scalar(yes), no_qty: scalar(no) }
}

#[test]
fn the_watchdog_reports_markets_and_account() {
    let dog = Watchdog::new(scalar(10.0), scalar(100.0));
    let quiet = vec![snapshot("a", 10.0, -10.0), snapshot("b", 0.0, 0.0)];
    assert!(!dog.check_exposure(&quiet, scalar(105.0), scalar(105.0)));
    assert!(dog.check_exposure(&quiet, scalar(105.1), scalar(105.0)));
    let loud = vec![snapshot("a", 0.0, 0.0), snapshot("b", -10.5, 0.0), snapshot("c", 0.0, 11.0)];
    assert!(dog.check_exposure(&loud, scalar(0.0), scalar(105.0)));
    assert_eq!(dog.breached_markets(&loud), vec![1, 2]);
    let uncapped = Watchdog::default();
    assert!(!uncapped.check_exposure(&loud, scalar(0.0), scalar(1050.0)));
    assert!(uncapped.global_breach(scalar(2000.0), scalar(1050.0)));
    assert_eq!(uncapped.global_max_budget, scalar(1000.0));
    assert_eq!(uncapped.global_leeway, scalar(1.05));
    assert_eq!(dog.global_leeway, scalar(1.05));
}

#[test]
fn totals_do_not_depend_on_the_order() {
    let mut a = MarketExposure::default();
    a.yes_qty = Amount::new(125, 2).unwrap();
    a.realized_pnl = Amount::new(-3, 0).unwrap();
    let mut b = MarketExposure::default();
    b.no_qty = Amount::new(7, 1).unwrap();
    b.realized_pnl = Amount::new(45, 1).unwrap();
    let one = vec![("a".to_string(), a), ("b".to_string(), b)];
    let other = vec![("b".to_string(), b), ("a".to_string(), a)];
    assert_eq!(decimal(total_exposure(&one, None).unwrap()), Decimal::new(195, 2));
    assert_eq!(decimal(total_exposure(&other, None).unwrap()), Decimal::new(195, 2));
    assert_eq!(decimal(total_realized(&one).unwrap()), Decimal::new(15, 1));
    assert_eq!(decimal(total_realized(&other).unwrap()), Decimal::new(15, 1));
}

#[test]
fn a_fill_leaves_other_markets_alone() {
    let mut inventory = InventoryManager::new();
    inventory.apply_reconciliation_snapshot("a", amount(1.0), amount(2.0));
    assert!(inventory.try_apply_fill("b", true, OrderSide::Buy, amount(4.0), amount(0.5), scalar(1.0)));
    let e = inventory.get_exposure("a");
    assert_eq!(decimal(e.yes_qty), Decimal::new(1, 0));
    assert_eq!(decimal(e.no_qty), Decimal::new(2, 0));
    assert_eq!(decimal(e.realized_pnl), Decimal::ZERO);
    assert_eq!(inventory.market_ids().len(), 2);
}
