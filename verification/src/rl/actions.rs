//! The agent's action space.

pub mod hybrid_action_space;

pub use hybrid_action_space::{OrderType, TradeSide};
