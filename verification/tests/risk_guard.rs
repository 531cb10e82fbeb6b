use polystrike_engine::decimal::Amount;
use polystrike_engine::risk::{BudgetReservation, RiskError, RiskGuard};
use polystrike_engine::scalar::Scalar;
use rust_decimal::Decimal;

fn amount(value: f64) -> Option<Amount> {
    Decimal::from_f64_retain(value).map(|d| Amount::new(d.mantissa(), d.scale()).unwrap())
}

fn decimal(a: Amount) -> Decimal {
    Decimal::from_i128_with_scale(a.mantissa(), a.scale())
}

fn guard(max_budget: f64) -> RiskGuard {
    RiskGuard::new(amount(max_budget))
}

fn reserve(guard: &mut RiskGuard, price: f64, size: f64) -> Result<BudgetReservation, RiskError> {
    guard.try_reserve_budget(amount(price), amount(size)).unwrap()
}

fn breaker(guard: &mut RiskGuard, pnl: f64) -> bool {
    let budget: f64 = decimal(guard.max_budget()).try_into().unwrap();
    guard.update_circuit_breaker(Scalar::from_bits((-pnl / budget).to_bits()))
}

#[test]
fn test_reserve_and_release() {
    let mut guard = guard(100.0);
    let res = reserve(&mut guard, 10.0, 5.0).unwrap();
    assert_eq!(decimal(res.amount()), Decimal::new(50, 0));
    assert_eq!(decimal(guard.current_spent()), Decimal::new(50, 0));
    assert!(guard.try_release_budget(res));
    assert_eq!(decimal(guard.current_spent()), Decimal::ZERO);
}

#[test]
fn test_budget_exceeded() {
    let mut guard = guard(100.0);
    let _ = reserve(&mut guard, 50.0, 1.0).unwrap();
    assert!(reserve(&mut guard, 60.0, 1.0).is_err());
}

#[test]
fn test_precision() {
    let mut guard = guard(1.0);
    let _ = reserve(&mut guard, 0.1, 1.0).unwrap();
    let _ = reserve(&mut guard, 0.2, 1.0).unwrap();
    let spent = decimal(guard.current_spent());
    let diff = (spent - Decimal::new(3, 1)).abs();
    assert!(diff < Decimal::new(1, 10));
}

#[test]
fn test_market_exposure_limits() {
    let guard = guard(0.0).with_max_exposure_per_market(amount(10.0));
    assert!(guard.check_market_exposure(amount(9.9), amount(0.0)).is_ok());
    assert!(guard.check_market_exposure(amount(0.0), amount(-9.9)).is_ok());
    assert!(guard.check_market_exposure(amount(10.0), amount(0.0)).is_ok());
    assert!(guard.check_market_exposure(amount(0.0), amount(-10.0)).is_ok());
    assert!(guard.check_market_exposure(amount(10.1), amount(0.0)).is_err());
    assert!(guard.check_market_exposure(amount(0.0), amount(-10.1)).is_err());
}

#[test]
fn test_hysteresis_circuit_breaker() {
    let mut guard = guard(100.0);
    assert!(!breaker(&mut guard, 0.0));
    assert!(!guard.is_frozen());
    assert!(!breaker(&mut guard, -19.0));
    assert!(breaker(&mut guard, -20.0));
    assert!(guard.is_frozen());
    assert!(breaker(&mut guard, -16.0));
    assert!(guard.is_frozen());
    assert!(!breaker(&mut guard, -15.0));
    assert!(!guard.is_frozen());
}

#[test]
fn test_refund_budget_delta_partial_fill() {
    let mut guard = guard(100.0);
    let reservation = reserve(&mut guard, 1.0, 10.0).unwrap();
    assert_eq!(decimal(guard.current_spent()), Decimal::new(10, 0));
    assert!(guard.try_refund_budget_delta(&reservation, amount(1.0), amount(6.0)));
    assert_eq!(decimal(guard.current_spent()), Decimal::new(6, 0));
}

#[test]
fn many_reservations_never_exceed_the_budget() {
    let mut guard = guard(100.0);
    let mut granted = 0;
    for _ in 0..150 {
        if reserve(&mut guard, 1.0, 1.0).is_ok() {
            granted += 1;
        }
    }
    assert_eq!(granted, 100);
    assert_eq!(decimal(guard.current_spent()), Decimal::new(100, 0));
}

#[test]
fn refusals_name_their_reason_and_change_nothing() {
    let mut guard = guard(10.0).with_max_exposure_per_market(amount(5.0));
    assert_eq!(guard.reserve_budget(None, None).unwrap_err(), RiskError::InvalidPrice);
    assert_eq!(guard.reserve_budget(amount(1.0), None).unwrap_err(), RiskError::InvalidSize);
    assert_eq!(reserve(&mut guard, 11.0, 1.0).unwrap_err(), RiskError::BudgetExceeded);
    assert_eq!(decimal(guard.current_spent()), Decimal::ZERO);
    assert_eq!(
        guard.check_market_exposure(amount(-6.0), amount(6.0)).unwrap_err(),
        RiskError::YesExposureExceeded
    );
    assert_eq!(
        guard.check_market_exposure(amount(5.0), amount(6.0)).unwrap_err(),
        RiskError::NoExposureExceeded
    );
    assert!(guard.check_market_exposure(None, None).is_ok());
    assert_eq!(RiskError::InvalidPrice.message(), "RiskGuard: invalid price");
    assert_eq!(RiskError::InvalidSize.message(), "RiskGuard: invalid size");
    assert_eq!(RiskError::BudgetExceeded.message(), "RiskGuard: Global budget exceeded!");
    assert_eq!(
        RiskError::YesExposureExceeded.message(),
        "RiskGuard: Per-market YES exposure exceeded!"
    );
    assert_eq!(
        RiskError::NoExposureExceeded.message(),
        "RiskGuard: Per-market NO exposure exceeded!"
    );
}

#[test]
fn without_a_decimal_budget_only_the_decimals_limit() {
    let guard = RiskGuard::new(None);
    assert_eq!(decimal(guard.max_budget()), Decimal::MAX);
    assert!(guard.check_market_exposure(amount(1e9), amount(-1e9)).is_ok());
}

#[test]
fn what_the_decimals_cannot_hold_is_reported() {
    let max = Amount::max_value();
    let mut guard = RiskGuard::new(None);
    assert!(guard.try_reserve_budget(Some(max), Some(max)).is_none());
    assert!(guard.try_can_afford(Some(max), Some(max)).is_none());
    assert!(guard.reserve_budget(Some(max), Some(Amount::one())).is_ok());
    assert!(guard.try_reserve_budget(Some(max), Some(Amount::one())).is_none());
    assert_eq!(decimal(guard.current_spent()), Decimal::MAX);
    assert!(!guard.try_refund_budget_on_sell(Some(max), Some(max)));
    assert_eq!(decimal(guard.current_spent()), Decimal::MAX);
}

#[test]
fn affordability_agrees_with_reservation() {
    let mut guard = guard(10.0);
    assert!(guard.can_afford(amount(1.0), amount(10.0)));
    assert!(!guard.can_afford(amount(1.0), amount(10.5)));
    assert!(!guard.can_afford(None, amount(1.0)));
    assert!(reserve(&mut guard, 1.0, 10.0).is_ok());
    assert!(!guard.can_afford(amount(1.0), amount(0.5)));
}

#[test]
fn a_sale_recycles_budget_but_never_below_zero() {
    let mut guard = guard(10.0);
    let _ = reserve(&mut guard, 0.5, 8.0).unwrap();
    assert!(guard.try_refund_budget_on_sell(amount(0.25), amount(4.0)));
    assert_eq!(decimal(guard.current_spent()), Decimal::new(3, 0));
    assert!(guard.try_refund_budget_on_sell(None, amount(4.0)));
    assert_eq!(decimal(guard.current_spent()), Decimal::new(3, 0));
    assert!(guard.try_refund_budget_on_sell(amount(1.0), amount(4.0)));
    assert_eq!(decimal(guard.current_spent()), Decimal::ZERO);
}

#[test]
fn an_unreadable_fill_gives_the_whole_reservation_back() {
    let mut guard = guard(10.0);
    let held = reserve(&mut guard, 0.5, 8.0).unwrap();
    assert!(guard.try_refund_budget_delta(&held, None, amount(8.0)));
    assert_eq!(decimal(guard.current_spent()), Decimal::ZERO);
    let held = reserve(&mut guard, 0.5, 8.0).unwrap();
    assert!(guard.try_refund_budget_delta(&held.clone_for_release(), amount(1.0), amount(8.0)));
    assert_eq!(decimal(guard.current_spent()), Decimal::new(4, 0));
}

#[test]
fn the_breaker_sleeps_without_a_budget() {
    let mut guard = guard(0.0);
    assert!(!guard.update_circuit_breaker(Scalar::from_bits(1.0f64.to_bits())));
    assert!(!guard.is_frozen());
    let mut guard = guard_frozen();
    assert!(guard.update_circuit_breaker(Scalar::from_bits(f64::NAN.to_bits())));
    assert!(!guard.update_circuit_breaker(Scalar::from_bits(0.15f64.to_bits())));
    assert!(!guard.update_circuit_breaker(Scalar::from_bits(f64::NAN.to_bits())));
}

fn guard_frozen() -> RiskGuard {
    let mut guard = guard(100.0);
    assert!(guard.update_circuit_breaker(Scalar::from_bits(0.2f64.to_bits())));
    guard
}

#[test]
fn buy_slots_are_exclusive() {
    let mut guard = guard(1.0);
    assert!(guard.try_acquire_global_buy_slot());
    assert!(!guard.try_acquire_global_buy_slot());
    assert!(guard.is_global_buy_in_flight());
    guard.release_global_buy_slot();
    assert!(!guard.is_global_buy_in_flight());
    assert!(guard.try_acquire_global_buy_slot());

    assert!(guard.try_acquire_token_buy_slot("a"));
    assert!(guard.try_acquire_token_buy_slot("b"));
    assert!(!guard.try_acquire_token_buy_slot("a"));
    guard.release_token_buy_slot("a");
    assert!(!guard.is_token_buy_in_flight("a"));
    assert!(guard.is_token_buy_in_flight("b"));
    assert!(guard.try_acquire_token_buy_slot("a"));
}
