//! Safety monitoring of the learned policy.

pub mod lyapunov_function;

pub use lyapunov_function::SafetyStatus;
