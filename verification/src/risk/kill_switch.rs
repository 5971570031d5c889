//! The global kill switch and the orderly flattening of positions after it
//! trips.

pub mod flatten_fsm;
pub mod global_atomic_halt;
pub mod twap_liquidation_router;

pub use flatten_fsm::{FlattenFSM, FlattenState};
pub use global_atomic_halt::GlobalKillSwitch;
pub use twap_liquidation_router::TWAPLiquidationRouter;
