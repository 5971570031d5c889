//! Safety status reported by the Lyapunov stability monitor.

use vstd::prelude::*;

verus! {

/// Safety status of the current state.
#[derive(Debug, Clone, Copy, PartialEq, Eq, Structural)]
pub enum SafetyStatus {
    /// Within the safe operating region.
    Safe,
    /// Approaching the safety boundary.
    Warning,
    /// Immediate intervention required.
    Critical,
}

impl SafetyStatus {
    /// Whether the status calls for intervention.
    pub fn needs_intervention(self) -> (r: bool)
        ensures
            r == (self != SafetyStatus::Safe),
    {
        matches!(self, SafetyStatus::Warning | SafetyStatus::Critical)
    }

    /// Whether the status is critical.
    pub fn is_critical(self) -> (r: bool)
        ensures
            r == (self == SafetyStatus::Critical),
    {
        matches!(self, SafetyStatus::Critical)
    }
}

} // verus!
