//! Global kill switch.
//!
//! Checked at the bottom of the execution stack: while it is tripped, every
//! outbound message is dropped.

use vstd::prelude::*;

verus! {

/// Result of a kill switch check.
#[derive(Debug, Clone, Copy, PartialEq, Eq, Structural)]
pub enum KillSwitchCheck {
    /// Operational.
    Clear,
    /// Halted: abort all operations.
    Halted,
}

/// The abstract state of a [`GlobalKillSwitch`].
pub struct KillSwitchView {
    pub halted: bool,
    pub trip_count: u64,
    pub last_trip_timestamp_ns: u64,
    pub auto_trip_enabled: bool,
}

/// Global kill switch.
pub struct GlobalKillSwitch {
    halted: bool,
    trip_count: u64,
    last_trip_timestamp_ns: u64,
    auto_trip_enabled: bool,
}

impl View for GlobalKillSwitch {
    type V = KillSwitchView;

    closed spec fn view(&self) -> KillSwitchView {
        KillSwitchView {
            halted: self.halted,
            trip_count: self.trip_count,
            last_trip_timestamp_ns: self.last_trip_timestamp_ns,
            auto_trip_enabled: self.auto_trip_enabled,
        }
    }
}

impl GlobalKillSwitch {
    /// A clear switch, never tripped, with auto-trip enabled.
    pub fn new() -> (r: Self)
        ensures
            r@ == (KillSwitchView { halted: false, trip_count: 0, last_trip_timestamp_ns: 0, auto_trip_enabled: true }),
    {
        GlobalKillSwitch { halted: false, trip_count: 0, last_trip_timestamp_ns: 0, auto_trip_enabled: true }
    }

    /// Whether the system may operate.
    pub fn check(&self) -> (r: KillSwitchCheck)
        ensures
            r == (if self@.halted { KillSwitchCheck::Halted } else { KillSwitchCheck::Clear }),
    {
        if self.halted {
            KillSwitchCheck::Halted
        } else {
            KillSwitchCheck::Clear
        }
    }

    /// Whether the switch is tripped.
    pub fn is_halted(&self) -> (r: bool)
        ensures
            r == self@.halted,
    {
        self.halted
    }

    /// Trip the switch at `timestamp_ns`.
    pub fn trip(&mut self, timestamp_ns: u64)
        ensures
            final(self)@ == (KillSwitchView {
                halted: true,
                trip_count: old(self)@.trip_count.wrapping_add(1),
                last_trip_timestamp_ns: timestamp_ns,
                ..old(self)@
            }),
    {
        self.halted = true;
        self.trip_count = self.trip_count.wrapping_add(1);
        self.last_trip_timestamp_ns = timestamp_ns;
    }

    /// Clear the switch; the trip history is kept.
    pub fn reset(&mut self)
        ensures
            final(self)@ == (KillSwitchView { halted: false, ..old(self)@ }),
    {
        self.halted = false;
    }

    /// Enable or disable auto-trip from the circuit breakers.
    pub fn set_auto_trip(&mut self, enabled: bool)
        ensures
            final(self)@ == (KillSwitchView { auto_trip_enabled: enabled, ..old(self)@ }),
    {
        self.auto_trip_enabled = enabled;
    }

    /// Whether auto-trip is enabled.
    pub fn is_auto_trip_enabled(&self) -> (r: bool)
        ensures
            r == self@.auto_trip_enabled,
    {
        self.auto_trip_enabled
    }

    /// Number of trips.
    pub fn trip_count(&self) -> (r: u64)
        ensures
            r == self@.trip_count,
    {
        self.trip_count
    }

    /// Time of the last trip.
    pub fn last_trip_timestamp_ns(&self) -> (r: u64)
        ensures
            r == self@.last_trip_timestamp_ns,
    {
        self.last_trip_timestamp_ns
    }

    /// Whether the switch has tripped at least once (modulo counter
    /// wrap-around).
    pub fn has_been_tripped(&self) -> (r: bool)
        ensures
            r == (self@.trip_count > 0),
    {
        self.trip_count > 0
    }
}

impl Default for GlobalKillSwitch {
    fn default() -> (r: Self)
        ensures
            r@ == (KillSwitchView { halted: false, trip_count: 0, last_trip_timestamp_ns: 0, auto_trip_enabled: true }),
    {
        Self::new()
    }
}

} // verus!
