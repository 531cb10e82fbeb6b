//! Best bid and ask of the reference exchange.
use crate::models::types::BookTicker;
use crate::oracle::reconnect::{Attempts, Reconnect};
use crate::scalar::Scalar;
use vstd::prelude::*;
use vstd::string::*;

verus! {

/// First pause before the stream is opened again, in milliseconds.
pub const INITIAL_BACKOFF_MS: u64 = 500;

/// A message of the stream with its numbers read; `None` for a field that holds no number.
#[derive(Clone, Copy, Debug)]
pub struct BinanceBookTicker {
    pub update_id: u64,
    pub event_time: u64,
    pub bid_price: Option<Scalar>,
    pub bid_qty: Option<Scalar>,
    pub ask_price: Option<Scalar>,
    pub ask_qty: Option<Scalar>,
}

impl BinanceBookTicker {
    /// Every field holds a number.
    pub open spec fn is_complete(self) -> bool {
        &&& self.bid_price is Some
        &&& self.bid_qty is Some
        &&& self.ask_price is Some
        &&& self.ask_qty is Some
    }
}

impl BookTicker {
    /// The ticker that a message carries; an error where one of its fields holds no number.
    pub fn try_from(raw: BinanceBookTicker) -> (r: Result<BookTicker, ()>)
        ensures
            r is Ok <==> raw.is_complete(),
            r matches Ok(ticker) ==> ticker == (BookTicker {
                bid_price: raw.bid_price->0,
                bid_qty: raw.bid_qty->0,
                ask_price: raw.ask_price->0,
                ask_qty: raw.ask_qty->0,
                event_time_ms: raw.event_time,
            }),
    {
        match (raw.bid_price, raw.bid_qty, raw.ask_price, raw.ask_qty) {
            (Some(bid_price), Some(bid_qty), Some(ask_price), Some(ask_qty)) => Ok(
                BookTicker {
                    bid_price,
                    bid_qty,
                    ask_price,
                    ask_qty,
                    event_time_ms: raw.event_time,
                },
            ),
            _ => Err(()),
        }
    }
}

/// What `str::to_lowercase` makes of a text.
pub uninterp spec fn lowercase(text: Seq<char>) -> Seq<char>;

/// Calls `str::to_lowercase`. Claimed of it: the result depends on the text alone.
#[verifier::external_body]
fn to_lowercase(text: &str) -> (r: String)
    ensures
        r@ == lowercase(text@),
{
    text.to_lowercase()
}

/// The address of the stream of a symbol that is in lower case already.
pub fn stream_url_of(symbol: &str) -> (r: String)
    ensures
        r@ == "wss://stream.binance.com:9443/ws/"@ + symbol@ + "@bookTicker"@,
{
    let mut url = "wss://stream.binance.com:9443/ws/".to_owned();
    url.append(symbol);
    url.append("@bookTicker");
    url
}

/// The address of the stream of a symbol.
pub fn stream_url(symbol: &str) -> (r: String)
    ensures
        r@ == "wss://stream.binance.com:9443/ws/"@ + lowercase(symbol@) + "@bookTicker"@,
{
    stream_url_of(to_lowercase(symbol).as_str())
}

/// The attempts to keep the stream open.
pub fn reconnect() -> (r: Reconnect)
    ensures
        r@ == Attempts::fresh(INITIAL_BACKOFF_MS),
{
    Reconnect::new(INITIAL_BACKOFF_MS)
}

} // verus!
