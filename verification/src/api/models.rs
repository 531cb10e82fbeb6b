//! Requests of the control plane.
use crate::scalar::Scalar;
use vstd::prelude::*;

verus! {

/// Start a sniper on one market.
#[derive(Clone, Debug)]
pub struct StartStrategyReq {
    pub token_id: String,
    pub strike_price: Scalar,
    pub snipe_size: Scalar,
    /// Seconds since the epoch.
    pub expiry_timestamp: i64,
    pub volatility: Scalar,
}

/// Stop the sniper on one market.
#[derive(Clone, Debug)]
pub struct StopStrategyReq {
    pub token_id: String,
}

/// Start a sniper on every market of an event.
#[derive(Clone, Debug)]
pub struct StartEventRadarReq {
    pub event_slug: String,
    pub volatility: Scalar,
    pub snipe_size: Scalar,
}

} // verus!
