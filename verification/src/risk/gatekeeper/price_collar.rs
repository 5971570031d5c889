//! Price collar validator.
//!
//! Rejects limit orders priced further than the collar from the micro-price,
//! and keeps the latest micro-price per symbol slot.

pub mod price_bounds;

use vstd::prelude::*;

use crate::risk::gatekeeper::fat_finger_collars::price_bounds::{collar_deviation, deviation};

verus! {

/// Number of symbol slots.
pub const MAX_SYMBOLS: usize = 1024;

/// The slot a symbol hash maps to.
pub open spec fn symbol_slot(symbol_hash: u64) -> int {
    (symbol_hash % (MAX_SYMBOLS as u64)) as int
}

fn slot_index(symbol_hash: u64) -> (r: usize)
    ensures
        r == symbol_slot(symbol_hash),
        r < MAX_SYMBOLS,
{
    (symbol_hash % (MAX_SYMBOLS as u64)) as usize
}

/// Outcome of a collar check that failed.
#[derive(Debug, Clone, Copy, PartialEq, Eq, Structural)]
pub enum PriceValidationResult {
    /// Within the collar.
    Valid,
    /// Above the upper collar.
    TooHigh { submitted: u64, max_allowed: u64 },
    /// Below the lower collar.
    TooLow { submitted: u64, min_allowed: u64 },
    /// The micro-price is zero (unset).
    StalePrice,
}

/// The collar verdict on `price` against `micro_price`.
pub open spec fn collar_verdict(collar_bps: u16, price: u64, is_buy: bool, micro_price: u64) -> Result<(), PriceValidationResult> {
    let dev = collar_deviation(micro_price, collar_bps);
    if micro_price == 0 {
        Err(PriceValidationResult::StalePrice)
    } else if is_buy {
        let max_allowed = micro_price.saturating_add(dev);
        if price > max_allowed {
            Err(PriceValidationResult::TooHigh { submitted: price, max_allowed })
        } else {
            Ok(())
        }
    } else {
        let min_allowed = micro_price.saturating_sub(dev);
        if min_allowed > 0 && price < min_allowed {
            Err(PriceValidationResult::TooLow { submitted: price, min_allowed })
        } else {
            Ok(())
        }
    }
}

/// The abstract state of a [`PriceCollarValidator`].
pub struct PriceCollarView {
    pub collar_bps: u16,
    pub stale_threshold_ns: u64,
    /// Micro-price per slot.
    pub micro_prices: Seq<u64>,
    /// Time of the last update per slot.
    pub last_update_ns: Seq<u64>,
    pub violation_count: usize,
}

/// Price collar validator with one micro-price per symbol slot.
pub struct PriceCollarValidator {
    collar_bps: u16,
    stale_threshold_ns: u64,
    micro_prices: Vec<u64>,
    last_update_ns: Vec<u64>,
    violation_count: usize,
}

impl View for PriceCollarValidator {
    type V = PriceCollarView;

    closed spec fn view(&self) -> PriceCollarView {
        PriceCollarView {
            collar_bps: self.collar_bps,
            stale_threshold_ns: self.stale_threshold_ns,
            micro_prices: self.micro_prices@,
            last_update_ns: self.last_update_ns@,
            violation_count: self.violation_count,
        }
    }
}

impl PriceCollarValidator {
    /// Well-formedness: both slot tables hold one entry per slot.
    pub open spec fn wf(&self) -> bool {
        self@.micro_prices.len() == MAX_SYMBOLS && self@.last_update_ns.len() == MAX_SYMBOLS
    }

    /// A validator with the given collar and staleness threshold, every
    /// slot's price and time at zero and no violations.
    pub fn new(collar_bps: u16, stale_threshold_ns: u64) -> (r: Self)
        ensures
            r@.collar_bps == collar_bps,
            r@.stale_threshold_ns == stale_threshold_ns,
            r@.micro_prices == Seq::new(MAX_SYMBOLS as nat, |i: int| 0u64),
            r@.last_update_ns == Seq::new(MAX_SYMBOLS as nat, |i: int| 0u64),
            r@.violation_count == 0,
            r.wf(),
    {
        let mut micro_prices: Vec<u64> = Vec::new();
        let mut last_update_ns: Vec<u64> = Vec::new();
        let mut i: usize = 0;
        while i < MAX_SYMBOLS
            invariant
                i <= MAX_SYMBOLS,
                micro_prices@ == Seq::new(i as nat, |j: int| 0u64),
                last_update_ns@ == Seq::new(i as nat, |j: int| 0u64),
            decreases MAX_SYMBOLS - i,
        {
            micro_prices.push(0);
            last_update_ns.push(0);
            i = i + 1;
        }
        PriceCollarValidator { collar_bps, stale_threshold_ns, micro_prices, last_update_ns, violation_count: 0 }
    }

    /// Check `price` against the collar around `micro_price`; a violation
    /// advances the violation counter.
    pub fn validate(&mut self, price: u64, is_buy: bool, micro_price: u64, timestamp_ns: u64) -> (r: Result<(), PriceValidationResult>)
        ensures
            r == collar_verdict(old(self)@.collar_bps, price, is_buy, micro_price),
            final(self)@ == (PriceCollarView {
                violation_count: if r matches Err(PriceValidationResult::TooHigh { .. })
                    || r matches Err(PriceValidationResult::TooLow { .. }) {
                    old(self)@.violation_count.wrapping_add(1)
                } else {
                    old(self)@.violation_count
                },
                ..old(self)@
            }),
    {
        if micro_price == 0 {
            return Err(PriceValidationResult::StalePrice);
        }
        let dev = deviation(micro_price, self.collar_bps);
        if is_buy {
            let max_allowed = micro_price.saturating_add(dev);
            if price > max_allowed {
                self.violation_count = self.violation_count.wrapping_add(1);
                return Err(PriceValidationResult::TooHigh { submitted: price, max_allowed });
            }
        } else {
            let min_allowed = micro_price.saturating_sub(dev);
            if min_allowed > 0 && price < min_allowed {
                self.violation_count = self.violation_count.wrapping_add(1);
                return Err(PriceValidationResult::TooLow { submitted: price, min_allowed });
            }
        }
        Ok(())
    }

    /// Record the micro-price of a symbol and the time it was seen.
    pub fn update_price(&mut self, symbol_hash: u64, price: u64, timestamp_ns: u64)
        requires
            old(self).wf(),
        ensures
            final(self).wf(),
            final(self)@ == (PriceCollarView {
                micro_prices: old(self)@.micro_prices.update(symbol_slot(symbol_hash), price),
                last_update_ns: old(self)@.last_update_ns.update(symbol_slot(symbol_hash), timestamp_ns),
                ..old(self)@
            }),
    {
        let idx = slot_index(symbol_hash);
        self.micro_prices.set(idx, price);
        self.last_update_ns.set(idx, timestamp_ns);
    }

    /// The micro-price recorded for a symbol's slot.
    pub fn get_micro_price(&self, symbol_hash: u64) -> (r: u64)
        requires
            self.wf(),
        ensures
            r == self@.micro_prices[symbol_slot(symbol_hash)],
    {
        let idx = slot_index(symbol_hash);
        self.micro_prices[idx]
    }

    /// Whether a symbol's price was never updated, or was updated more than
    /// the staleness threshold before `current_time_ns`.
    pub fn is_price_stale(&self, symbol_hash: u64, current_time_ns: u64) -> (r: bool)
        requires
            self.wf(),
        ensures
            r == (self@.last_update_ns[symbol_slot(symbol_hash)] == 0
                || current_time_ns.saturating_sub(self@.last_update_ns[symbol_slot(symbol_hash)])
                    > self@.stale_threshold_ns),
    {
        let idx = slot_index(symbol_hash);
        let last_update = self.last_update_ns[idx];
        if last_update == 0 {
            return true;
        }
        current_time_ns.saturating_sub(last_update) > self.stale_threshold_ns
    }

    /// Number of collar violations.
    pub fn violation_count(&self) -> (r: usize)
        ensures
            r == self@.violation_count,
    {
        self.violation_count
    }

    /// Set the violation counter to zero, returning its previous value.
    pub fn reset_violations(&mut self) -> (r: usize)
        ensures
            r == old(self)@.violation_count,
            final(self)@ == (PriceCollarView { violation_count: 0, ..old(self)@ }),
    {
        let previous = self.violation_count;
        self.violation_count = 0;
        previous
    }
}

} // verus!
