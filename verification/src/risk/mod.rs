//! Risk controls: the budget guard, the position ledger and the exposure watchdog.
pub mod guard;
pub mod inventory;
pub mod watchdog;

pub use guard::{BudgetReservation, RiskError, RiskGuard};
pub use inventory::{InventoryManager, MarketExposure};
pub use watchdog::Watchdog;
