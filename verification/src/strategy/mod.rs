//! Pricing rules of the sniper.
pub mod sniper;

pub use sniper::{SnipeSignal, SniperStrategy};
