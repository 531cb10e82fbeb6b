//! The trading loop of one market: parameters, edges, the position state machine and the steps
//! of an order.
pub mod fire;
pub mod iceberg;
pub mod params;
pub mod state;
pub mod task;

pub use params::EngineParams;
