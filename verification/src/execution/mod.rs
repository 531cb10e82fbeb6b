//! Talking to the exchange: settings, retries and what its answers mean.
pub mod poly_client;
