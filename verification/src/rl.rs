//! Reinforcement-learning trading support: the discrete parts of the action
//! space and the safety status of the learned policy.

pub mod actions;
pub mod safety;
