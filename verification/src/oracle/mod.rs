//! Price streams: what a message means, and when a lost stream is tried again.
pub mod binance_ws;
pub mod poly_ws;
pub mod reconnect;
