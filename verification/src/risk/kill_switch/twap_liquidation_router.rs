//! TWAP liquidation router.
//!
//! Splits a position into slices executed over time, each a limit order
//! whose price is bounded by the configured slippage from a reference
//! price.

use vstd::prelude::*;

use crate::risk::gatekeeper::fat_finger_collars::price_bounds::{collar_deviation, deviation};

verus! {

/// One slice of a liquidation.
#[derive(Debug, Clone, Copy, PartialEq, Eq, Structural)]
pub struct TWAPSlice {
    /// Quantity to trade.
    pub quantity: u64,
    /// Limit price: the lowest acceptable for a sell, the highest for a buy.
    pub limit_price: u64,
    /// Whether the slice buys.
    pub is_buy: bool,
}

/// TWAP configuration.
#[derive(Debug, Clone, Copy, PartialEq, Eq, Structural)]
pub struct TWAPConfig {
    /// Number of slices.
    pub num_slices: u64,
    /// Interval between slices, in milliseconds.
    pub interval_ms: u64,
    /// Largest slippage from the reference price, in basis points.
    pub max_slippage_bps: u16,
    /// Smallest order size.
    pub min_order_size: u64,
}

impl Default for TWAPConfig {
    fn default() -> (r: Self)
        ensures
            r == (TWAPConfig { num_slices: 10, interval_ms: 1000, max_slippage_bps: 500, min_order_size: 10_000 }),
    {
        TWAPConfig { num_slices: 10, interval_ms: 1000, max_slippage_bps: 500, min_order_size: 10_000 }
    }
}

/// TWAP statistics.
#[derive(Debug, Clone, Copy, PartialEq, Eq, Structural)]
pub struct TWAPStats {
    pub total_position: u64,
    pub remaining_position: u64,
    pub slices_executed: u64,
    pub total_liquidated: u64,
    pub reference_price: u64,
    pub is_complete: bool,
}

/// The abstract state of a [`TWAPLiquidationRouter`].
pub struct TWAPView {
    pub config: TWAPConfig,
    pub total_position: u64,
    pub remaining_position: u64,
    pub current_slice: u64,
    pub reference_price: u64,
    /// Whether a long position is being liquidated (by selling).
    pub is_long: bool,
    pub slices_executed: u64,
    pub total_liquidated: u64,
}

/// The limit price of a slice: the reference price moved against the
/// trade by the slippage allowance.
pub open spec fn slice_limit_price(v: TWAPView) -> u64 {
    let slippage = collar_deviation(v.reference_price, v.config.max_slippage_bps);
    if v.is_long {
        v.reference_price.saturating_sub(slippage)
    } else {
        v.reference_price.saturating_add(slippage)
    }
}

/// The quantity of the next slice (0 when there is none).
pub open spec fn slice_quantity(v: TWAPView) -> u64 {
    let remaining = v.remaining_position;
    let size = if v.current_slice >= v.config.num_slices - 1 {
        remaining
    } else {
        (v.total_position / v.config.num_slices) as u64
    };
    if size < v.config.min_order_size && remaining >= v.config.min_order_size {
        v.config.min_order_size
    } else if size < remaining {
        size
    } else {
        remaining
    }
}

/// The next slice: none once nothing remains or when the computed quantity
/// is zero.
pub open spec fn next_slice_spec(v: TWAPView) -> Option<TWAPSlice> {
    if v.remaining_position == 0 || slice_quantity(v) == 0 {
        None
    } else {
        Some(TWAPSlice { quantity: slice_quantity(v), limit_price: slice_limit_price(v), is_buy: !v.is_long })
    }
}

/// Recording an executed slice that filled `filled_quantity`.
pub open spec fn executed_step(v: TWAPView, filled_quantity: u64) -> TWAPView {
    TWAPView {
        current_slice: v.current_slice.wrapping_add(1),
        slices_executed: v.slices_executed.wrapping_add(1),
        remaining_position: if filled_quantity <= v.remaining_position {
            (v.remaining_position - filled_quantity) as u64
        } else {
            v.remaining_position
        },
        total_liquidated: v.total_liquidated.wrapping_add(filled_quantity),
        ..v
    }
}

/// TWAP liquidation router.
pub struct TWAPLiquidationRouter {
    config: TWAPConfig,
    total_position: u64,
    remaining_position: u64,
    current_slice: u64,
    reference_price: u64,
    is_long: bool,
    slices_executed: u64,
    total_liquidated: u64,
}

impl View for TWAPLiquidationRouter {
    type V = TWAPView;

    closed spec fn view(&self) -> TWAPView {
        TWAPView {
            config: self.config,
            total_position: self.total_position,
            remaining_position: self.remaining_position,
            current_slice: self.current_slice,
            reference_price: self.reference_price,
            is_long: self.is_long,
            slices_executed: self.slices_executed,
            total_liquidated: self.total_liquidated,
        }
    }
}

impl TWAPLiquidationRouter {
    /// A router with nothing to liquidate.
    pub fn new(config: TWAPConfig) -> (r: Self)
        ensures
            r@ == (TWAPView {
                config,
                total_position: 0,
                remaining_position: 0,
                current_slice: 0,
                reference_price: 0,
                is_long: true,
                slices_executed: 0,
                total_liquidated: 0,
            }),
    {
        TWAPLiquidationRouter {
            config,
            total_position: 0,
            remaining_position: 0,
            current_slice: 0,
            reference_price: 0,
            is_long: true,
            slices_executed: 0,
            total_liquidated: 0,
        }
    }

    /// Start liquidating `position` (absolute), long or short, against
    /// `reference_price`.
    pub fn initialize(&mut self, position: u64, is_long: bool, reference_price: u64)
        ensures
            final(self)@ == (TWAPView {
                total_position: position,
                remaining_position: position,
                current_slice: 0,
                reference_price,
                is_long,
                ..old(self)@
            }),
    {
        self.total_position = position;
        self.remaining_position = position;
        self.current_slice = 0;
        self.reference_price = reference_price;
        self.is_long = is_long;
    }

    /// The next slice: an equal share of the position, the whole remainder
    /// on the last slice, at least the minimum order size where that much
    /// remains, and never more than remains.
    pub fn next_slice(&self, current_price: u64) -> (r: Option<TWAPSlice>)
        requires
            self@.remaining_position != 0 ==> self@.config.num_slices > 0,
        ensures
            r == next_slice_spec(self@),
    {
        let remaining = self.remaining_position;
        if remaining == 0 {
            return None;
        }
        let num_slices = self.config.num_slices;
        let slice_size = if self.current_slice >= num_slices - 1 {
            remaining
        } else {
            self.total_position / num_slices
        };
        let quantity = if slice_size < self.config.min_order_size && remaining >= self.config.min_order_size {
            self.config.min_order_size
        } else if slice_size < remaining {
            slice_size
        } else {
            remaining
        };
        if quantity == 0 {
            return None;
        }
        let ref_price = self.reference_price;
        let slippage = deviation(ref_price, self.config.max_slippage_bps);
        let limit_price = if self.is_long {
            ref_price.saturating_sub(slippage)
        } else {
            ref_price.saturating_add(slippage)
        };
        Some(TWAPSlice { quantity, limit_price, is_buy: !self.is_long })
    }

    /// Record an executed slice.
    pub fn mark_slice_executed(&mut self, filled_quantity: u64)
        ensures
            final(self)@ == executed_step(old(self)@, filled_quantity),
    {
        self.current_slice = self.current_slice.wrapping_add(1);
        self.slices_executed = self.slices_executed.wrapping_add(1);
        if filled_quantity <= self.remaining_position {
            self.remaining_position = self.remaining_position - filled_quantity;
        }
        self.total_liquidated = self.total_liquidated.wrapping_add(filled_quantity);
    }

    /// Set the reference price.
    pub fn update_reference_price(&mut self, price: u64)
        ensures
            final(self)@ == (TWAPView { reference_price: price, ..old(self)@ }),
    {
        self.reference_price = price;
    }

    /// Whether nothing remains to liquidate.
    pub fn is_complete(&self) -> (r: bool)
        ensures
            r == (self@.remaining_position == 0),
    {
        self.remaining_position == 0
    }

    /// The position still to liquidate.
    pub fn remaining_position(&self) -> (r: u64)
        ensures
            r == self@.remaining_position,
    {
        self.remaining_position
    }

    /// The index of the next slice.
    pub fn current_slice(&self) -> (r: u64)
        ensures
            r == self@.current_slice,
    {
        self.current_slice
    }

    /// The statistics.
    pub fn stats(&self) -> (r: TWAPStats)
        ensures
            r == (TWAPStats {
                total_position: self@.total_position,
                remaining_position: self@.remaining_position,
                slices_executed: self@.slices_executed,
                total_liquidated: self@.total_liquidated,
                reference_price: self@.reference_price,
                is_complete: self@.remaining_position == 0,
            }),
    {
        TWAPStats {
            total_position: self.total_position,
            remaining_position: self.remaining_position,
            slices_executed: self.slices_executed,
            total_liquidated: self.total_liquidated,
            reference_price: self.reference_price,
            is_complete: self.is_complete(),
        }
    }

    /// Clear the liquidation and its statistics; the side is kept.
    pub fn reset(&mut self)
        ensures
            final(self)@ == (TWAPView {
                total_position: 0,
                remaining_position: 0,
                current_slice: 0,
                reference_price: 0,
                slices_executed: 0,
                total_liquidated: 0,
                ..old(self)@
            }),
    {
        self.total_position = 0;
        self.remaining_position = 0;
        self.current_slice = 0;
        self.reference_price = 0;
        self.slices_executed = 0;
        self.total_liquidated = 0;
    }
}

/// A slice never exceeds what remains, and its limit price stays within
/// the slippage allowance on the protective side of the reference price:
/// at or below it for a sell, at or above it for a buy.
pub proof fn slice_is_bounded(v: TWAPView)
    requires
        v.remaining_position != 0 ==> v.config.num_slices > 0,
    ensures
        next_slice_spec(v) matches Some(s) ==> {
            &&& 0 < s.quantity <= v.remaining_position
            &&& s.is_buy == !v.is_long
            &&& v.is_long ==> s.limit_price <= v.reference_price
                && s.limit_price >= v.reference_price - collar_deviation(v.reference_price, v.config.max_slippage_bps)
            &&& !v.is_long ==> s.limit_price >= v.reference_price
                && s.limit_price <= v.reference_price + collar_deviation(v.reference_price, v.config.max_slippage_bps)
        },
{
}

/// Executing each slice in full strictly reduces what remains, and the
/// router stops offering slices only when nothing remains, provided every
/// slice before the last has a positive share.
pub proof fn full_slices_drain_position(v: TWAPView)
    requires
        v.config.num_slices > 0,
        v.remaining_position > 0,
        v.current_slice >= v.config.num_slices - 1 || v.total_position / v.config.num_slices > 0,
    ensures
        next_slice_spec(v) matches Some(s) && executed_step(v, s.quantity).remaining_position
            < v.remaining_position,
{
}

/// The last slice takes the rest: once the slice index reaches the last
/// slice, the next slice is the whole remaining position, and executing it
/// in full leaves nothing; so a position whose slices are all executed in
/// full is gone after `num_slices` slices.
pub proof fn last_slice_takes_rest(v: TWAPView)
    requires
        v.config.num_slices > 0,
        v.current_slice >= v.config.num_slices - 1,
        v.remaining_position > 0,
    ensures
        next_slice_spec(v) matches Some(s) && s.quantity == v.remaining_position
            && executed_step(v, s.quantity).remaining_position == 0,
{
}

/// Executing a slice advances the slice index by one, so after the first
/// `num_slices - 1` slices of a fresh liquidation the next one is the last.
pub proof fn executed_slice_advances(v: TWAPView, filled_quantity: u64)
    requires
        v.current_slice < u64::MAX,
    ensures
        executed_step(v, filled_quantity).current_slice == v.current_slice + 1,
        executed_step(v, filled_quantity).total_position == v.total_position,
        executed_step(v, filled_quantity).config == v.config,
{
}

} // verus!
