//! Parameters of the trading loop, each with its default where the environment sets none.
use crate::scalar::Scalar;
use crate::text::{digits_of, law_numbers_are_read_back, parse_unsigned, unsigned_of};
use vstd::prelude::*;

verus! {

/// The bits of 0.001: the edge that an entry takes.
pub const ENTER_THRESHOLD_DEFAULT: u64 = 0x3f50_624d_d2f1_a9fc;

/// The bits of 0.002: the edge that an exit takes.
pub const EXIT_THRESHOLD_DEFAULT: u64 = 0x3f60_624d_d2f1_a9fc;

/// The bits of 0.0005: the profit that an exit takes.
pub const MIN_PROFIT_DEFAULT: u64 = 0x3f40_624d_d2f1_a9fc;

/// The bits of 0.9: the highest price at which anything is bought.
pub const MAX_BUY_PRICE_DEFAULT: u64 = 0x3fec_cccc_cccc_cccd;

/// The bits of 0.001: what a strike relative to an opening price adds to the entry threshold.
pub const RELATIVE_MARKET_OFFSET_THRESHOLD_DEFAULT: u64 = 0x3f50_624d_d2f1_a9fc;

pub const ORDER_TIMEOUT_SECS_DEFAULT: u64 = 5;

pub const PENDING_WATCHDOG_SECS_DEFAULT: u64 = 8;

pub const ORDER_FAIL_COOLDOWN_SECS_DEFAULT: u64 = 2;

pub const EDGE_MONITOR_INTERVAL_DEFAULT: u64 = 5000;

/// The number that a variable holds, or the default where it is unset or holds no number.
pub open spec fn number_or(value: Option<Seq<char>>, default: u64) -> u64 {
    match value {
        Some(text) => match unsigned_of(text) {
            Some(n) => n,
            None => default,
        },
        None => default,
    }
}

/// The view of a variable that may be unset.
pub open spec fn seen(value: Option<&str>) -> Option<Seq<char>> {
    match value {
        Some(text) => Some(text@),
        None => None,
    }
}

/// The number that a variable holds, or the default where it is unset or holds no number.
pub fn env_u64(value: Option<&str>, default: u64) -> (r: u64)
    ensures
        r == number_or(seen(value), default),
{
    match value {
        Some(text) => match parse_unsigned(text) {
            Some(n) => n,
            None => default,
        },
        None => default,
    }
}

/// Seconds that an order may take, from the text of its variable.
pub fn order_timeout_secs(value: Option<&str>) -> (r: u64)
    ensures
        r == number_or(seen(value), ORDER_TIMEOUT_SECS_DEFAULT),
{
    env_u64(value, ORDER_TIMEOUT_SECS_DEFAULT)
}

/// Seconds after which a pending state is unlocked, from the text of its variable.
pub fn pending_watchdog_secs(value: Option<&str>) -> (r: u64)
    ensures
        r == number_or(seen(value), PENDING_WATCHDOG_SECS_DEFAULT),
{
    env_u64(value, PENDING_WATCHDOG_SECS_DEFAULT)
}

/// Seconds without orders after one failed, from the text of its variable.
pub fn order_fail_cooldown_secs(value: Option<&str>) -> (r: u64)
    ensures
        r == number_or(seen(value), ORDER_FAIL_COOLDOWN_SECS_DEFAULT),
{
    env_u64(value, ORDER_FAIL_COOLDOWN_SECS_DEFAULT)
}

/// Ticks from one line of the monitor to the next, from the text of its variable.
pub fn edge_monitor_interval(value: Option<&str>) -> (r: u64)
    ensures
        r == number_or(seen(value), EDGE_MONITOR_INTERVAL_DEFAULT),
{
    env_u64(value, EDGE_MONITOR_INTERVAL_DEFAULT)
}

/// The parameters of the trading loop.
#[derive(Clone, Copy, Debug, PartialEq, Eq, Structural)]
pub struct EngineParams {
    pub enter_threshold: Scalar,
    /// The entry threshold with the offset for relative strikes added to it.
    pub relative_enter_threshold: Scalar,
    pub exit_threshold: Scalar,
    pub min_profit: Scalar,
    pub max_buy_price: Scalar,
    pub order_timeout_secs: u64,
    pub pending_watchdog_secs: u64,
    pub order_fail_cooldown_secs: u64,
    pub edge_monitor_interval: u64,
}

impl EngineParams {
    /// The edge that an entry takes.
    pub open spec fn threshold(self, is_relative_strike: bool) -> Scalar {
        if is_relative_strike {
            self.relative_enter_threshold
        } else {
            self.enter_threshold
        }
    }

    /// The edge that an entry takes: more of it where the strike is relative to an opening
    /// price.
    pub fn enter_threshold_effective(&self, is_relative_strike: bool) -> (r: Scalar)
        ensures
            r == self.threshold(is_relative_strike),
    {
        if is_relative_strike {
            self.relative_enter_threshold
        } else {
            self.enter_threshold
        }
    }
}

fn or_default(parsed: Option<Scalar>, default: u64) -> (r: Scalar)
    ensures
        r == (match parsed {
            Some(v) => v,
            None => Scalar::of(default),
        }),
{
    match parsed {
        Some(v) => v,
        None => Scalar::from_bits(default),
    }
}

/// The edge that an entry takes; `parsed` is the number that its variable holds, if any.
pub fn enter_threshold(parsed: Option<Scalar>) -> (r: Scalar)
    ensures
        r == (match parsed {
            Some(v) => v,
            None => Scalar::of(ENTER_THRESHOLD_DEFAULT),
        }),
{
    or_default(parsed, ENTER_THRESHOLD_DEFAULT)
}

/// The edge that an exit takes; `parsed` is the number that its variable holds, if any.
pub fn exit_threshold(parsed: Option<Scalar>) -> (r: Scalar)
    ensures
        r == (match parsed {
            Some(v) => v,
            None => Scalar::of(EXIT_THRESHOLD_DEFAULT),
        }),
{
    or_default(parsed, EXIT_THRESHOLD_DEFAULT)
}

/// The profit that an exit takes; `parsed` is the number that its variable holds, if any.
pub fn min_profit(parsed: Option<Scalar>) -> (r: Scalar)
    ensures
        r == (match parsed {
            Some(v) => v,
            None => Scalar::of(MIN_PROFIT_DEFAULT),
        }),
{
    or_default(parsed, MIN_PROFIT_DEFAULT)
}

/// The highest price at which anything is bought; `parsed` is the number that its variable
/// holds, if any.
pub fn max_buy_price(parsed: Option<Scalar>) -> (r: Scalar)
    ensures
        r == (match parsed {
            Some(v) => v,
            None => Scalar::of(MAX_BUY_PRICE_DEFAULT),
        }),
{
    or_default(parsed, MAX_BUY_PRICE_DEFAULT)
}

/// What a strike relative to an opening price adds to the entry threshold; `parsed` is the
/// number that its variable holds, if any.
pub fn relative_market_offset_threshold(parsed: Option<Scalar>) -> (r: Scalar)
    ensures
        r == (match parsed {
            Some(v) => v,
            None => Scalar::of(RELATIVE_MARKET_OFFSET_THRESHOLD_DEFAULT),
        }),
{
    or_default(parsed, RELATIVE_MARKET_OFFSET_THRESHOLD_DEFAULT)
}

/// A variable that holds the digits of a number, with or without a plus sign, sets that number;
/// one that is unset, empty or holds anything else leaves the default.
pub proof fn law_a_variable_sets_its_number(n: u64, text: Seq<char>, at: int, default: u64)
    ensures
        number_or(None, default) == default,
        number_or(Some(Seq::empty()), default) == default,
        number_or(Some(digits_of(n as nat)), default) == n,
        number_or(Some(seq!['+'] + digits_of(n as nat)), default) == n,
        1 <= at < text.len() && !('0' <= text[at] <= '9') ==> number_or(Some(text), default)
            == default,
{
    law_numbers_are_read_back(n as nat, text, at);
}

/// A strike relative to an opening price takes the higher threshold, any other the plain one.
pub proof fn law_relative_strikes_take_their_own_threshold(params: EngineParams)
    ensures
        params.threshold(true) == params.relative_enter_threshold,
        params.threshold(false) == params.enter_threshold,
{
}

} // verus!
