//! Position accumulator.
//!
//! Tracks the net position of each symbol slot in integer base units
//! (satoshis, wei), so that any number of fills reconcile exactly.

pub mod scale_conversion;

use vstd::prelude::*;

use crate::risk::gatekeeper::price_collar::{symbol_slot, MAX_SYMBOLS};

verus! {

/// Result of a failed position-limit check.
#[derive(Debug, Clone, Copy, PartialEq, Eq, Structural)]
pub enum PositionCheckResult {
    /// Within limits.
    WithinLimits,
    /// The new position would exceed the limit.
    WouldExceed { current: i64, requested_delta: i64, new_position: i64, max_allowed: i64 },
}

/// The verdict on moving a position `current` by `delta` under the limit
/// `max_position` (on the absolute position).
pub open spec fn position_verdict(current: i64, delta: i64, max_position: i64) -> Result<(), PositionCheckResult> {
    let sum = current + delta;
    if sum < i64::MIN || sum > i64::MAX {
        Err(PositionCheckResult::WouldExceed {
            current,
            requested_delta: delta,
            new_position: current,
            max_allowed: max_position,
        })
    } else if (if sum < 0 { -sum } else { sum }) > max_position {
        Err(PositionCheckResult::WouldExceed {
            current,
            requested_delta: delta,
            new_position: sum as i64,
            max_allowed: max_position,
        })
    } else {
        Ok(())
    }
}

/// The abstract state of an [`AtomicPositionAccumulator`].
pub struct PositionView {
    /// Net position per slot (positive long, negative short).
    pub positions: Seq<i64>,
    pub max_position: i64,
    pub update_count: u64,
    pub violation_count: u64,
}

/// Net position tracker with one position per symbol slot.
pub struct AtomicPositionAccumulator {
    positions: Vec<i64>,
    max_position: i64,
    update_count: u64,
    violation_count: u64,
}

impl View for AtomicPositionAccumulator {
    type V = PositionView;

    closed spec fn view(&self) -> PositionView {
        PositionView {
            positions: self.positions@,
            max_position: self.max_position,
            update_count: self.update_count,
            violation_count: self.violation_count,
        }
    }
}

fn slot_index(symbol_hash: u64) -> (r: usize)
    ensures
        r == symbol_slot(symbol_hash),
        r < MAX_SYMBOLS,
{
    (symbol_hash % (MAX_SYMBOLS as u64)) as usize
}

impl AtomicPositionAccumulator {
    /// Well-formedness: one position per slot.
    pub open spec fn wf(&self) -> bool {
        self@.positions.len() == MAX_SYMBOLS
    }

    /// An accumulator with every position flat and no updates or
    /// violations.
    pub fn new(max_position: i64) -> (r: Self)
        ensures
            r.wf(),
            r@.positions == Seq::new(MAX_SYMBOLS as nat, |i: int| 0i64),
            r@.max_position == max_position,
            r@.update_count == 0,
            r@.violation_count == 0,
    {
        let mut positions: Vec<i64> = Vec::new();
        let mut i: usize = 0;
        while i < MAX_SYMBOLS
            invariant
                i <= MAX_SYMBOLS,
                positions@ == Seq::new(i as nat, |j: int| 0i64),
            decreases MAX_SYMBOLS - i,
        {
            positions.push(0);
            i = i + 1;
        }
        AtomicPositionAccumulator { positions, max_position, update_count: 0, violation_count: 0 }
    }

    /// Check, without applying it, whether moving a symbol's position by
    /// `delta` keeps its absolute value within the limit; a failed check
    /// advances the violation counter.
    pub fn check_position_would_exceed(&mut self, symbol_hash: u64, delta: i64) -> (r: Result<(), PositionCheckResult>)
        requires
            old(self).wf(),
        ensures
            final(self).wf(),
            r == position_verdict(old(self)@.positions[symbol_slot(symbol_hash)], delta, old(self)@.max_position),
            final(self)@ == (PositionView {
                violation_count: if r is Err {
                    old(self)@.violation_count.wrapping_add(1)
                } else {
                    old(self)@.violation_count
                },
                ..old(self)@
            }),
    {
        let idx = slot_index(symbol_hash);
        let current = self.positions[idx];
        let new_position = match current.checked_add(delta) {
            Some(pos) => pos,
            None => {
                self.violation_count = self.violation_count.wrapping_add(1);
                return Err(PositionCheckResult::WouldExceed {
                    current,
                    requested_delta: delta,
                    new_position: current,
                    max_allowed: self.max_position,
                });
            },
        };
        // The magnitude of `i64::MIN` (2^63) exceeds every `i64` limit.
        let exceeds = if new_position == i64::MIN {
            true
        } else if new_position < 0 {
            -new_position > self.max_position
        } else {
            new_position > self.max_position
        };
        if exceeds {
            self.violation_count = self.violation_count.wrapping_add(1);
            return Err(PositionCheckResult::WouldExceed {
                current,
                requested_delta: delta,
                new_position,
                max_allowed: self.max_position,
            });
        }
        Ok(())
    }

    /// Apply a fill: move a symbol's position by `delta` (wrapping) and
    /// count the update.
    pub fn update_position(&mut self, symbol_hash: u64, delta: i64)
        requires
            old(self).wf(),
        ensures
            final(self).wf(),
            final(self)@ == (PositionView {
                positions: old(self)@.positions.update(
                    symbol_slot(symbol_hash),
                    old(self)@.positions[symbol_slot(symbol_hash)].wrapping_add(delta),
                ),
                update_count: old(self)@.update_count.wrapping_add(1),
                ..old(self)@
            }),
    {
        let idx = slot_index(symbol_hash);
        let current = self.positions[idx];
        self.positions.set(idx, current.wrapping_add(delta));
        self.update_count = self.update_count.wrapping_add(1);
    }

    /// The net position of a symbol.
    pub fn get_position(&self, symbol_hash: u64) -> (r: i64)
        requires
            self.wf(),
        ensures
            r == self@.positions[symbol_slot(symbol_hash)],
    {
        let idx = slot_index(symbol_hash);
        self.positions[idx]
    }

    /// Overwrite the position of a symbol (startup, reconciliation).
    pub fn set_position(&mut self, symbol_hash: u64, position: i64)
        requires
            old(self).wf(),
        ensures
            final(self).wf(),
            final(self)@ == (PositionView {
                positions: old(self)@.positions.update(symbol_slot(symbol_hash), position),
                ..old(self)@
            }),
    {
        let idx = slot_index(symbol_hash);
        self.positions.set(idx, position);
    }

    /// Number of applied fills.
    pub fn update_count(&self) -> (r: u64)
        ensures
            r == self@.update_count,
    {
        self.update_count
    }

    /// Number of failed limit checks.
    pub fn violation_count(&self) -> (r: u64)
        ensures
            r == self@.violation_count,
    {
        self.violation_count
    }

    /// Set every position to zero.
    pub fn reset_all_positions(&mut self)
        requires
            old(self).wf(),
        ensures
            final(self).wf(),
            final(self)@ == (PositionView {
                positions: Seq::new(MAX_SYMBOLS as nat, |i: int| 0i64),
                ..old(self)@
            }),
    {
        let mut i: usize = 0;
        while i < MAX_SYMBOLS
            invariant
                i <= MAX_SYMBOLS,
                self.positions@.len() == MAX_SYMBOLS,
                forall|j: int| 0 <= j < i ==> self.positions@[j] == 0,
                self.max_position == old(self).max_position,
                self.update_count == old(self).update_count,
                self.violation_count == old(self).violation_count,
            decreases MAX_SYMBOLS - i,
        {
            self.positions.set(i, 0);
            i = i + 1;
        }
        assert(self.positions@ =~= Seq::new(MAX_SYMBOLS as nat, |i: int| 0i64));
    }

    /// The limit on the absolute position.
    pub fn max_position(&self) -> (r: i64)
        ensures
            r == self@.max_position,
    {
        self.max_position
    }
}

/// A fill followed by the opposite fill restores the position exactly.
pub proof fn fill_then_reverse_restores(position: i64, delta: i64)
    requires
        delta != i64::MIN,
    ensures
        position.wrapping_add(delta).wrapping_add((-delta) as i64) == position,
{
}

/// `n` fills of `delta` from a flat position reach exactly `n * delta`
/// wherever that amount fits in 64 bits: no drift accumulates.
pub proof fn repeated_fills_are_exact(delta: i64, n: nat)
    requires
        i64::MIN <= n * delta <= i64::MAX,
    ensures
        repeated_fill(delta, n) == n * delta,
    decreases n,
{
    if n > 0 {
        let m = (n - 1) as nat;
        assert(m * delta + delta == n * delta) by (nonlinear_arith)
            requires m == n - 1;
        assert(i64::MIN <= m * delta <= i64::MAX) by (nonlinear_arith)
            requires i64::MIN <= n * delta <= i64::MAX, m == n - 1, i64::MIN <= delta <= i64::MAX;
        repeated_fills_are_exact(delta, m);
        let prev = repeated_fill(delta, m);
        assert(prev + delta == n * delta);
        assert(prev.wrapping_add(delta) == prev + delta);
    } else {
        assert(n * delta == 0) by (nonlinear_arith)
            requires n == 0;
    }
}

/// The position reached from flat by `n` fills of `delta`.
pub open spec fn repeated_fill(delta: i64, n: nat) -> i64
    decreases n,
{
    if n == 0 { 0 } else { repeated_fill(delta, (n - 1) as nat).wrapping_add(delta) }
}

} // verus!
