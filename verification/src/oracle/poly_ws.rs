//! Best bid and ask of one token.
use crate::oracle::reconnect::{Attempts, Reconnect};
use crate::scalar::Scalar;
use vstd::prelude::*;

verus! {

/// First pause before the stream is opened again, in milliseconds.
pub const INITIAL_BACKOFF_MS: u64 = 1000;

/// Best bid and ask of one token; zero where there is none.
#[derive(Clone, Copy, Debug, PartialEq, Eq, Structural)]
pub struct PolyBookTicker {
    pub best_bid: Scalar,
    pub best_ask: Scalar,
}

impl Default for PolyBookTicker {
    fn default() -> (r: PolyBookTicker)
        ensures
            r == (PolyBookTicker { best_bid: Scalar::of(0), best_ask: Scalar::of(0) }),
    {
        PolyBookTicker { best_bid: Scalar::zero(), best_ask: Scalar::zero() }
    }
}

/// The first price of a side of the book, zero where the side is empty.
pub open spec fn first_price(prices: Seq<Scalar>) -> Scalar {
    if prices.len() > 0 {
        prices[0]
    } else {
        Scalar::of(0)
    }
}

fn first_or_zero(prices: &Vec<Scalar>) -> (r: Scalar)
    ensures
        r == first_price(prices@),
{
    if prices.len() > 0 {
        prices[0]
    } else {
        Scalar::zero()
    }
}

/// The ticker of a book, of which `bids` and `asks` are the prices in the order in which the
/// exchange sends them.
pub fn book_update_to_ticker(bids: &Vec<Scalar>, asks: &Vec<Scalar>) -> (r: PolyBookTicker)
    ensures
        r.best_bid == first_price(bids@),
        r.best_ask == first_price(asks@),
{
    PolyBookTicker { best_bid: first_or_zero(bids), best_ask: first_or_zero(asks) }
}

/// The attempts to keep the stream open.
pub fn reconnect() -> (r: Reconnect)
    ensures
        r@ == Attempts::fresh(INITIAL_BACKOFF_MS),
{
    Reconnect::new(INITIAL_BACKOFF_MS)
}

/// The price of a side of the book is its first one, whatever follows, and zero for an empty side.
pub proof fn law_the_first_price_counts(first: Scalar, rest: Seq<Scalar>)
    ensures
        first_price(seq![first] + rest) == first,
        first_price(Seq::empty()) == Scalar::of(0),
{
}

} // verus!
