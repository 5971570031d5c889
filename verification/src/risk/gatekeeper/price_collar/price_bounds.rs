//! Price bounds around a micro-price, without overflow.

use vstd::prelude::*;

use crate::risk::gatekeeper::fat_finger_collars::price_bounds::{
    deviation, spec_lower_bound, spec_upper_bound, spec_within_bounds,
};

verus! {

/// Upper price bound without overflow.
pub fn upper_bound(mid_price: u64, collar_bps: u16) -> (r: u64)
    ensures
        r == spec_upper_bound(mid_price, collar_bps),
{
    let dev = deviation(mid_price, collar_bps);
    mid_price.saturating_add(dev)
}

/// Lower price bound without underflow.
pub fn lower_bound(mid_price: u64, collar_bps: u16) -> (r: u64)
    ensures
        r == spec_lower_bound(mid_price, collar_bps),
{
    let dev = deviation(mid_price, collar_bps);
    mid_price.saturating_sub(dev)
}

/// Whether `price` lies within the collar for the given side.
pub fn is_within_bounds(price: u64, mid_price: u64, collar_bps: u16, is_buy: bool) -> (r: bool)
    ensures
        r == spec_within_bounds(price, mid_price, collar_bps, is_buy),
{
    if is_buy {
        price <= upper_bound(mid_price, collar_bps)
    } else {
        let lower = lower_bound(mid_price, collar_bps);
        lower == 0 || price >= lower
    }
}

} // verus!
