//! Circuit breakers: the global system state machine and rate limiting.

pub mod global_state_machine;
pub mod pnl_derivative_tracker;
pub mod token_bucket_throttle;
pub mod velocity_of_loss;

pub use global_state_machine::{GlobalStateMachine, SystemState};
pub use token_bucket_throttle::TokenBucketThrottle;
