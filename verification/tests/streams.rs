use polystrike_engine::config::{dry_run, AppConfig, EnvValues};
use polystrike_engine::execution::poly_client::{
    client_settings, default_clob_url, is_rate_limited, position_of, OrderRetry, RetryStep,
    SettingsError, TokenPosition,
};
use polystrike_engine::models::btc_price::PriceCache;
use polystrike_engine::models::types::BookTicker;
use polystrike_engine::oracle::binance_ws::{self, stream_url, stream_url_of, BinanceBookTicker};
use polystrike_engine::oracle::poly_ws::{self, book_update_to_ticker, PolyBookTicker};
use polystrike_engine::oracle::reconnect::Reconnect;
use polystrike_engine::scalar::Scalar;

fn scalar(x: f64) -> Scalar {
    Scalar::from_bits(x.to_bits())
}

#[test]
fn the_cache_forgets_after_a_quarter_hour() {
    let mut cache = PriceCache::new();
    assert_eq!(cache.get_btc_mid(), scalar(0.0));
    assert!(cache.get_btc_at_timestamp(0).is_none());
    cache.set_btc_mid(1000, scalar(1.0));
    cache.set_btc_mid(1900, scalar(2.0));
    assert_eq!(cache.get_btc_at_timestamp(1000), Some(scalar(1.0)));
    cache.set_btc_mid(1901, scalar(3.0));
    assert_eq!(cache.get_btc_at_timestamp(1000), Some(scalar(2.0)));
    assert_eq!(cache.get_btc_mid(), scalar(3.0));
    cache.set_btc_mid(i64::MIN, scalar(4.0));
    assert_eq!(cache.get_btc_at_timestamp(i64::MIN), Some(scalar(4.0)));
}

#[test]
fn the_nearest_price_is_found() {
    let mut cache = PriceCache::new();
    for (ts, price) in [(100, 1.0), (110, 2.0), (110, 3.0), (130, 4.0)] {
        cache.set_btc_mid(ts, scalar(price));
    }
    assert_eq!(cache.get_btc_at_timestamp(110), Some(scalar(2.0)));
    assert_eq!(cache.get_btc_at_timestamp(105), Some(scalar(1.0)));
    assert_eq!(cache.get_btc_at_timestamp(120), Some(scalar(2.0)));
    assert_eq!(cache.get_btc_at_timestamp(121), Some(scalar(4.0)));
    assert_eq!(cache.get_btc_at_timestamp(i64::MAX), Some(scalar(4.0)));
    assert_eq!(cache.get_btc_at_timestamp(i64::MIN), Some(scalar(1.0)));
}

#[test]
fn tickers_need_all_their_numbers() {
    let full = BinanceBookTicker {
        update_id: 9,
        event_time: 77,
        bid_price: Some(scalar(1.0)),
        bid_qty: Some(scalar(2.0)),
        ask_price: Some(scalar(3.0)),
        ask_qty: Some(scalar(4.0)),
    };
    let ticker = BookTicker::try_from(full).unwrap();
    assert_eq!(ticker.bid_price, scalar(1.0));
    assert_eq!(ticker.bid_qty, scalar(2.0));
    assert_eq!(ticker.ask_price, scalar(3.0));
    assert_eq!(ticker.ask_qty, scalar(4.0));
    assert_eq!(ticker.event_time_ms, 77);
    let mut broken = full;
    broken.ask_qty = None;
    assert!(BookTicker::try_from(broken).is_err());
    let mut broken = full;
    broken.bid_price = None;
    assert!(BookTicker::try_from(broken).is_err());
    assert_eq!(BookTicker::default().ask_price, scalar(0.0));
}

#[test]
fn stream_addresses_are_in_lower_case() {
    assert_eq!(stream_url("BtcUSDT"), "wss://stream.binance.com:9443/ws/btcusdt@bookTicker");
    assert_eq!(stream_url_of("ethusdt"), "wss://stream.binance.com:9443/ws/ethusdt@bookTicker");
}

#[test]
fn books_give_their_first_prices() {
    let ticker = book_update_to_ticker(&vec![scalar(0.4), scalar(0.3)], &vec![]);
    assert_eq!(ticker.best_bid, scalar(0.4));
    assert_eq!(ticker.best_ask, scalar(0.0));
    assert_eq!(PolyBookTicker::default().best_bid, scalar(0.0));
}

#[test]
fn streams_are_given_up_after_ten_failures() {
    let mut attempts = binance_ws::reconnect();
    let mut pauses = Vec::new();
    while let Some(ms) = attempts.failed() {
        pauses.push(ms);
    }
    assert_eq!(pauses, vec![500, 1000, 2000, 4000, 8000, 16000, 30000, 30000, 30000]);
    assert_eq!(attempts.consecutive_failures(), 10);
    attempts.connected();
    assert_eq!(attempts.consecutive_failures(), 0);
    assert_eq!(attempts.ended(), 500);
    assert_eq!(attempts.backoff_ms(), 1000);
    assert_eq!(poly_ws::reconnect().failed(), Some(1000));
    assert_eq!(Reconnect::new(30_000).ended(), 30_000);
}

#[test]
fn rate_limits_are_recognised() {
    assert!(is_rate_limited("failed to post order: HTTP 429"));
    assert!(is_rate_limited("Too Many Requests"));
    assert!(is_rate_limited("hit the rate limit"));
    assert!(!is_rate_limited("failed to post order: not enough balance"));
}

#[test]
fn refused_orders_are_tried_three_times_again() {
    let mut retry = OrderRetry::new();
    assert_eq!(retry.after_error("429"), RetryStep::Wait(500));
    assert_eq!(retry.after_error("429"), RetryStep::Wait(1000));
    assert_eq!(retry.after_error("429"), RetryStep::Wait(2000));
    assert_eq!(retry.after_error("429"), RetryStep::Fail);
    assert_eq!(retry.attempt, 3);
    let mut retry = OrderRetry::new();
    assert_eq!(retry.after_error("bad signature"), RetryStep::Fail);
    let mut slow = OrderRetry { attempt: 0, backoff_ms: 4000 };
    assert_eq!(slow.after_error("rate limit"), RetryStep::Wait(4000));
    assert_eq!(slow.backoff_ms, 5000);
}

#[test]
fn positions_are_looked_up_by_token() {
    let position = |asset: &str, size: Option<f64>| TokenPosition {
        asset: asset.to_string(),
        size: size.map(scalar),
    };
    let all = vec![
        position("a", Some(2.5)),
        position("b", Some(-1.0)),
        position("c", None),
        position("a", Some(9.0)),
    ];
    assert_eq!(position_of(&all, "a"), scalar(2.5));
    assert_eq!(position_of(&all, "b"), scalar(0.0));
    assert_eq!(position_of(&all, "c"), scalar(0.0));
    assert_eq!(position_of(&all, "d"), scalar(0.0));
}

#[test]
fn client_settings_name_what_is_missing() {
    let text = |t: &str| Some(t.to_string());
    let settings = client_settings(text("0xkey"), text("137"), text("0xfunds")).ok().unwrap();
    assert_eq!(settings.private_key, "0xkey");
    assert_eq!(settings.chain_id, 137);
    assert_eq!(settings.funder, text("0xfunds"));
    assert_eq!(client_settings(None, None, None).err(), Some(SettingsError::KeyMissing));
    assert_eq!(client_settings(text("k"), None, None).err(), Some(SettingsError::ChainMissing));
    assert_eq!(client_settings(text("k"), text("x"), None).err(), Some(SettingsError::ChainInvalid));
    assert_eq!(SettingsError::KeyMissing.message(), "PK (private key) missing from environment");
    assert_eq!(SettingsError::ChainMissing.message(), "CHAIN_ID missing from environment");
    assert_eq!(SettingsError::ChainInvalid.message(), "invalid CHAIN_ID");
    assert_eq!(default_clob_url(), "https://clob.polymarket.com");
}

fn no_values() -> EnvValues {
    EnvValues {
        binance_symbol: None,
        poly_token_id: None,
        chain_id: None,
        funder_address: None,
        max_budget: None,
        max_exposure_per_market: None,
        reconciliation_buffer_seconds: None,
    }
}

#[test]
fn configuration_has_its_defaults() {
    let config = AppConfig::from_env(no_values());
    assert_eq!(config.binance_symbol, "btcusdt");
    assert_eq!(config.poly_token_id, None);
    assert_eq!(config.chain_id, 137);
    assert_eq!(config.funder_address, None);
    assert_eq!(config.max_budget, scalar(500.0));
    assert_eq!(config.max_exposure_per_market, scalar(0.0));
    assert_eq!(config.reconciliation_buffer_seconds, scalar(8.0));
    let mut values = no_values();
    values.binance_symbol = Some("ethusdt".to_string());
    values.chain_id = Some("80002".to_string());
    values.max_budget = Some(scalar(5.0));
    let config = AppConfig::from_env(values);
    assert_eq!(config.binance_symbol, "ethusdt");
    assert_eq!(config.chain_id, 80002);
    assert_eq!(config.max_budget, scalar(5.0));
    let mut values = no_values();
    values.chain_id = Some("polygon".to_string());
    assert_eq!(AppConfig::from_env(values).chain_id, 137);
}

#[test]
fn live_trading_has_to_be_asked_for() {
    assert!(dry_run(None));
    assert!(dry_run(Some("true")) && dry_run(Some("1")) && dry_run(Some("")));
    assert!(!dry_run(Some("false")) && !dry_run(Some("0")));
}
