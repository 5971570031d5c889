//! Price bounds around a mid-price, without overflow.

use vstd::prelude::*;

verus! {

/// The allowed deviation from `mid_price`: `mid_price * collar_bps / 10000`,
/// taken to 64 bits.
pub open spec fn collar_deviation(mid_price: u64, collar_bps: u16) -> u64 {
    ((mid_price * collar_bps) / 10000) as u64
}

/// The upper bound: mid-price plus deviation, saturating at `u64::MAX`.
pub open spec fn spec_upper_bound(mid_price: u64, collar_bps: u16) -> u64 {
    mid_price.saturating_add(collar_deviation(mid_price, collar_bps))
}

/// The lower bound: mid-price minus deviation, saturating at 0.
pub open spec fn spec_lower_bound(mid_price: u64, collar_bps: u16) -> u64 {
    mid_price.saturating_sub(collar_deviation(mid_price, collar_bps))
}

/// A buy must not exceed the upper bound; a sell must not fall below the
/// lower bound, unless that bound is 0.
pub open spec fn spec_within_bounds(price: u64, mid_price: u64, collar_bps: u16, is_buy: bool) -> bool {
    if is_buy {
        price <= spec_upper_bound(mid_price, collar_bps)
    } else {
        spec_lower_bound(mid_price, collar_bps) == 0 || price >= spec_lower_bound(mid_price, collar_bps)
    }
}

/// Compute the allowed deviation.
pub(crate) fn deviation(mid_price: u64, collar_bps: u16) -> (r: u64)
    ensures
        r == collar_deviation(mid_price, collar_bps),
{
    proof {
        lemma_scaled_fits(mid_price, collar_bps as u64, 65535);
    }
    (mid_price as u128 * collar_bps as u128 / 10000) as u64
}

/// Upper price bound with overflow protection.
pub fn upper_bound(mid_price: u64, collar_bps: u16) -> (r: u64)
    ensures
        r == spec_upper_bound(mid_price, collar_bps),
{
    let dev = deviation(mid_price, collar_bps);
    mid_price.saturating_add(dev)
}

/// Lower price bound with underflow protection.
pub fn lower_bound(mid_price: u64, collar_bps: u16) -> (r: u64)
    ensures
        r == spec_lower_bound(mid_price, collar_bps),
{
    let dev = deviation(mid_price, collar_bps);
    mid_price.saturating_sub(dev)
}

/// Whether `price` lies within the collar for the given side.
pub fn is_within_bounds(price: u64, mid_price: u64, collar_bps: u16, is_buy: bool) -> (r: bool)
    ensures
        r == spec_within_bounds(price, mid_price, collar_bps, is_buy),
{
    if is_buy {
        price <= upper_bound(mid_price, collar_bps)
    } else {
        price >= lower_bound(mid_price, collar_bps) || lower_bound(mid_price, collar_bps) == 0
    }
}

/// `a * b` stays below `u64::MAX * (c + 1)` when `b <= c`.
pub(crate) proof fn lemma_scaled_fits(a: u64, b: u64, c: u64)
    requires
        b <= c,
    ensures
        0 <= a * b <= u64::MAX * c,
{
    assert(0 <= a * b <= u64::MAX * c) by (nonlinear_arith)
        requires a <= u64::MAX, 0 <= a, 0 <= b, b <= c;
}

/// The bounds enclose the mid-price: the lower bound never exceeds it and
/// the upper bound never falls below it; with a zero collar both equal it.
pub proof fn bounds_enclose_mid(mid_price: u64, collar_bps: u16)
    ensures
        spec_lower_bound(mid_price, collar_bps) <= mid_price,
        spec_upper_bound(mid_price, collar_bps) >= mid_price,
        collar_bps == 0 ==> spec_lower_bound(mid_price, collar_bps) == mid_price
            && spec_upper_bound(mid_price, collar_bps) == mid_price,
{
    if collar_bps == 0 {
        assert(mid_price * collar_bps == 0) by (nonlinear_arith)
            requires collar_bps == 0;
    }
}

/// Where the deviation is at least 1, the upper bound lies strictly above
/// the mid-price unless it saturates.
pub proof fn upper_bound_grows(mid_price: u64, collar_bps: u16)
    requires
        collar_deviation(mid_price, collar_bps) > 0,
        mid_price < u64::MAX,
    ensures
        spec_upper_bound(mid_price, collar_bps) > mid_price,
{
}

} // verus!
