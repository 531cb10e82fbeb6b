//! Values that the parts of the engine exchange.
pub mod btc_price;
pub mod types;
