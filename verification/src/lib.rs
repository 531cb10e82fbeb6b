//! Verified core of the PolyStrike engine: budget, positions, decisions and orders of a sniper on
//! prediction markets, the discovery of its markets and the registry of what runs.
pub mod api;
pub mod config;
pub mod decimal;
pub mod discovery;
pub mod engine;
pub mod execution;
pub mod models;
pub mod oracle;
pub mod risk;
pub mod scalar;
pub mod strategy;
pub mod text;
