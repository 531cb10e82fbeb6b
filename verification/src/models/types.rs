//! Order sides and the top of an exchange's book.
use crate::scalar::Scalar;
use vstd::prelude::*;

verus! {

/// Side of an order.
#[derive(Clone, Copy, Debug, PartialEq, Eq, Structural)]
pub enum OrderSide {
    Buy,
    Sell,
}

/// Best bid and ask of the reference exchange.
#[derive(Clone, Copy, Debug, PartialEq, Eq, Structural)]
pub struct BookTicker {
    pub bid_price: Scalar,
    pub bid_qty: Scalar,
    pub ask_price: Scalar,
    pub ask_qty: Scalar,
    pub event_time_ms: u64,
}

impl Default for BookTicker {
    fn default() -> (r: BookTicker)
        ensures
            r == (BookTicker {
                bid_price: Scalar::of(0),
                bid_qty: Scalar::of(0),
                ask_price: Scalar::of(0),
                ask_qty: Scalar::of(0),
                event_time_ms: 0,
            }),
    {
        BookTicker {
            bid_price: Scalar::zero(),
            bid_qty: Scalar::zero(),
            ask_price: Scalar::zero(),
            ask_qty: Scalar::zero(),
            event_time_ms: 0,
        }
    }
}

} // verus!
