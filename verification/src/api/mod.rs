//! The control plane: requests, the registry of running strategies, and the replies.
pub mod models;
pub mod server;
pub mod stopped;
pub mod strategy_registry;
