//! The market that a sniper works on, and the fair value of its outcome.
use crate::models::types::OrderSide;
use crate::scalar::{Scalar, ONE};
use vstd::prelude::*;

verus! {

/// The bits of 72000.0.
pub const DEFAULT_STRIKE: u64 = 0x40f1_9400_0000_0000;

/// The bits of 100.0.
pub const DEFAULT_SNIPE_SIZE: u64 = 0x4059_0000_0000_0000;

/// The bits of 0.5.
pub const DEFAULT_VOLATILITY: u64 = 0x3fe0_0000_0000_0000;

/// The bits of 1e-10: the shortest time to expiry, in years, that the pricing model is given.
pub const SHORTEST_TIME: u64 = 0x3ddb_7cdf_d9d7_bdbb;

/// An order that the sniper wants to place.
#[derive(Clone, Copy, Debug, PartialEq, Eq, Structural)]
pub struct SnipeSignal {
    pub side: OrderSide,
    pub target_price: Scalar,
    pub size: Scalar,
}

/// The market that a sniper works on.
#[derive(Clone, Copy, Debug, PartialEq, Eq, Structural)]
pub struct SniperStrategy {
    pub strike_price: Scalar,
    /// Money for one trade.
    pub snipe_size: Scalar,
    /// Seconds since the epoch.
    pub expiry_timestamp: i64,
    pub volatility: Scalar,
}

impl Default for SniperStrategy {
    fn default() -> (r: SniperStrategy)
        ensures
            r == (SniperStrategy {
                strike_price: Scalar::of(DEFAULT_STRIKE),
                snipe_size: Scalar::of(DEFAULT_SNIPE_SIZE),
                expiry_timestamp: 0,
                volatility: Scalar::of(DEFAULT_VOLATILITY),
            }),
    {
        SniperStrategy {
            strike_price: Scalar::from_bits(DEFAULT_STRIKE),
            snipe_size: Scalar::from_bits(DEFAULT_SNIPE_SIZE),
            expiry_timestamp: 0,
            volatility: Scalar::from_bits(DEFAULT_VOLATILITY),
        }
    }
}

/// Whether the outcome is priced as if it were decided already: the strike, the volatility or
/// the time left is zero or less.
pub open spec fn is_decided(
    strike: Scalar,
    time_to_expiry_years: Scalar,
    volatility: Scalar,
) -> bool {
    ||| strike.at_most(Scalar::of(0))
    ||| volatility.at_most(Scalar::of(0))
    ||| time_to_expiry_years.at_most(Scalar::of(0))
}

/// One where the spot has reached the strike, zero otherwise.
pub open spec fn decided_price(spot: Scalar, strike: Scalar) -> Scalar {
    if strike.at_most(spot) {
        Scalar::of(ONE)
    } else {
        Scalar::of(0)
    }
}

/// Fair value of an outcome that pays one where the spot ends at or above the strike, given what
/// the model says of an outcome that is still open.
pub open spec fn call_price(
    spot: Scalar,
    strike: Scalar,
    time_to_expiry_years: Scalar,
    volatility: Scalar,
    modelled: Scalar,
) -> Scalar {
    if is_decided(strike, time_to_expiry_years, volatility) {
        decided_price(spot, strike)
    } else {
        modelled
    }
}

impl SniperStrategy {
    /// The strategy for one market.
    pub fn new(
        strike_price: Scalar,
        snipe_size: Scalar,
        expiry_timestamp: i64,
        volatility: Scalar,
    ) -> (r: SniperStrategy)
        ensures
            r == (SniperStrategy { strike_price, snipe_size, expiry_timestamp, volatility }),
    {
        SniperStrategy { strike_price, snipe_size, expiry_timestamp, volatility }
    }

    /// Seconds from `now` to the expiry, none once it has passed.
    pub open spec fn seconds_left(self, now: i64) -> int {
        if self.expiry_timestamp > now {
            self.expiry_timestamp - now
        } else {
            0
        }
    }

    /// Seconds from `now` to the expiry, none once it has passed.
    pub fn remaining_seconds(&self, now: i64) -> (r: i64)
        requires
            i64::MIN <= self.expiry_timestamp - now <= i64::MAX,
        ensures
            r == self.seconds_left(now),
    {
        if self.expiry_timestamp > now {
            self.expiry_timestamp - now
        } else {
            0
        }
    }

    /// Fair value of an outcome that pays one where the spot ends at or above the strike.
    /// `modelled` is what the log-normal model gives for it; it counts only where the outcome is
    /// still open.
    pub fn calculate_binary_call_price(
        spot: Scalar,
        strike: Scalar,
        time_to_expiry_years: Scalar,
        volatility: Scalar,
        modelled: Scalar,
    ) -> (r: Scalar)
        ensures
            r == call_price(spot, strike, time_to_expiry_years, volatility, modelled),
    {
        let zero = Scalar::zero();
        if strike.le(&zero) || volatility.le(&zero) || time_to_expiry_years.le(&zero) {
            if strike.le(&spot) {
                return Scalar::from_bits(ONE);
            }
            return zero;
        }
        modelled
    }

    /// The time to expiry, in years, that the pricing model is given.
    pub fn model_time(time_to_expiry_years: Scalar) -> (r: Scalar)
        ensures
            r == Scalar::larger(time_to_expiry_years, Scalar::of(SHORTEST_TIME)),
    {
        time_to_expiry_years.max(&Scalar::from_bits(SHORTEST_TIME))
    }
}

/// Where what the model gives stays between zero and one and does not fall as the spot rises, the
/// same holds of the price. A decided outcome is worth zero or one.
pub proof fn law_the_price_follows_the_spot(
    spot: Scalar,
    higher: Scalar,
    strike: Scalar,
    time_to_expiry_years: Scalar,
    volatility: Scalar,
    modelled: Scalar,
    modelled_higher: Scalar,
)
    requires
        spot.at_most(higher),
        Scalar::of(0).at_most(modelled),
        modelled.at_most(modelled_higher),
        modelled_higher.at_most(Scalar::of(ONE)),
    ensures
        ({
            let price = call_price(spot, strike, time_to_expiry_years, volatility, modelled);
            let price_higher = call_price(
                higher,
                strike,
                time_to_expiry_years,
                volatility,
                modelled_higher,
            );
            &&& Scalar::of(0).at_most(price)
            &&& price.at_most(price_higher)
            &&& price_higher.at_most(Scalar::of(ONE))
            &&& is_decided(strike, time_to_expiry_years, volatility) ==> price == Scalar::of(0)
                || price == Scalar::of(ONE)
        }),
{
}

/// To the model, every time up to the shortest one is the shortest one.
pub proof fn law_short_times_count_as_the_shortest(time_to_expiry_years: Scalar)
    requires
        time_to_expiry_years.at_most(Scalar::of(SHORTEST_TIME)),
    ensures
        Scalar::larger(time_to_expiry_years, Scalar::of(SHORTEST_TIME)) == Scalar::of(
            SHORTEST_TIME,
        ),
{
}

/// An outcome whose strike, volatility or time left is zero or less is worth one where the spot has
/// reached the strike and zero where it has not; any other is worth what the model gives.
pub proof fn law_only_an_open_outcome_is_modelled(
    spot: Scalar,
    strike: Scalar,
    time_to_expiry_years: Scalar,
    volatility: Scalar,
    modelled: Scalar,
)
    ensures
        ({
            let zero = Scalar::of(0);
            let price = call_price(spot, strike, time_to_expiry_years, volatility, modelled);
            &&& strike.at_most(zero) || volatility.at_most(zero) || time_to_expiry_years.at_most(
                zero,
            ) ==> price == (if strike.at_most(spot) {
                Scalar::of(0x3ff0_0000_0000_0000)
            } else {
                zero
            })
            &&& strike.positive() && volatility.positive() && time_to_expiry_years.positive()
                ==> price == modelled
        }),
{
}

/// The seconds that are left take the clock to the expiry, and are none from then on.
pub proof fn law_the_seconds_left_end_at_the_expiry(strategy: SniperStrategy, now: i64)
    ensures
        strategy.seconds_left(now) >= 0,
        now <= strategy.expiry_timestamp ==> now + strategy.seconds_left(now)
            == strategy.expiry_timestamp,
        now >= strategy.expiry_timestamp ==> strategy.seconds_left(now) == 0,
{
}

} // verus!
