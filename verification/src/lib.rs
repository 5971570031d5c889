//! Pre-trade risk gatekeeping, circuit breakers, kill switches and the
//! integer state machines of a trading system, with their contracts
//! proved by Verus.

mod clock;
pub mod risk;
pub mod rl;
