//! Risk management: the pre-trade gatekeeper, circuit breakers, the kill
//! switch, and the structure of the dependence models.

pub mod breakers;
pub mod dependence;
pub mod gatekeeper;
pub mod hedging;
pub mod kill_switch;
pub mod margin;
