//! Fat-finger price collars.
//!
//! A limit price is accepted only within a collar around the current
//! mid-price, and only while that mid-price is fresh.

pub mod price_bounds;

use vstd::prelude::*;

use price_bounds::{
    collar_deviation, deviation, lemma_scaled_fits, spec_lower_bound, spec_upper_bound, spec_within_bounds,
};

verus! {

/// A price deviation in basis points.
#[derive(Debug, Clone, Copy, PartialEq, Eq, Structural)]
pub struct PriceBps(u64);

impl PriceBps {
    /// The value `bps`.
    pub fn from_bps(bps: u16) -> (r: Self)
        ensures
            r.spec_bps() == bps as u64,
    {
        PriceBps(bps as u64)
    }

    /// The value, taken to 16 bits.
    pub fn as_bps(&self) -> (r: u16)
        ensures
            r == self.spec_bps() as u16,
    {
        self.0 as u16
    }

    /// The stored value.
    pub closed spec fn spec_bps(&self) -> u64 {
        self.0
    }
}

/// A deviation is its value: two deviations are equal exactly when their
/// values are, so equal arguments to [`PriceBps::from_bps`] give equal
/// deviations and different ones different deviations.
pub proof fn price_bps_is_its_value(a: PriceBps, b: PriceBps)
    ensures
        a == b <==> a.spec_bps() == b.spec_bps(),
{
}

/// Outcome of a fat-finger check.
#[derive(Debug, Clone, Copy, PartialEq, Eq, Structural)]
pub enum FatFingerResult {
    /// The price is within the collar.
    Valid,
    /// The price lies above the upper collar.
    TooHigh { submitted_price: u64, max_allowed: u64, deviation_bps: u16 },
    /// The price lies below the lower collar.
    TooLow { submitted_price: u64, min_allowed: u64, deviation_bps: u16 },
    /// The mid-price is unset or too old.
    StaleMidPrice,
}

/// The abstract state of a [`FatFingerValidator`].
pub struct FatFingerView {
    pub mid_price: u64,
    pub mid_price_timestamp_ns: u64,
    pub collar_bps: u16,
    pub max_stale_ns: u64,
    pub rejection_count: u64,
}

/// A deviation in basis points, capped at `u16::MAX`.
pub open spec fn capped_bps(x: u64) -> u16 {
    if x < 65535 { x as u16 } else { 65535 }
}

/// Whether the mid-price is set and at most `max_stale_ns` old at `now_ns`.
pub open spec fn mid_is_fresh(v: FatFingerView, now_ns: u64) -> bool {
    v.mid_price != 0 && now_ns.saturating_sub(v.mid_price_timestamp_ns) <= v.max_stale_ns
}

/// The verdict on a limit price.
pub open spec fn limit_price_verdict(v: FatFingerView, price: u64, is_buy: bool, now_ns: u64) -> FatFingerResult {
    let mid = v.mid_price;
    let dev = collar_deviation(mid, v.collar_bps);
    if !mid_is_fresh(v, now_ns) {
        FatFingerResult::StaleMidPrice
    } else if is_buy {
        let max_allowed = mid.saturating_add(dev);
        if price > max_allowed {
            FatFingerResult::TooHigh {
                submitted_price: price,
                max_allowed,
                deviation_bps: capped_bps(((price * 10000) / (mid as int) - 10000) as u64),
            }
        } else {
            FatFingerResult::Valid
        }
    } else {
        let min_allowed = mid.saturating_sub(dev);
        if price < min_allowed && min_allowed > 0 {
            FatFingerResult::TooLow {
                submitted_price: price,
                min_allowed,
                deviation_bps: capped_bps((10000 - (price * 10000) / (mid as int)) as u64),
            }
        } else {
            FatFingerResult::Valid
        }
    }
}

/// Whether a verdict is a collar violation.
pub open spec fn is_violation(r: FatFingerResult) -> bool {
    r is TooHigh || r is TooLow
}

/// Fat-finger validator holding a snapshot of the mid-price.
pub struct FatFingerValidator {
    mid_price: u64,
    mid_price_timestamp_ns: u64,
    collar_bps: u16,
    max_stale_ns: u64,
    rejection_count: u64,
}

impl View for FatFingerValidator {
    type V = FatFingerView;

    closed spec fn view(&self) -> FatFingerView {
        FatFingerView {
            mid_price: self.mid_price,
            mid_price_timestamp_ns: self.mid_price_timestamp_ns,
            collar_bps: self.collar_bps,
            max_stale_ns: self.max_stale_ns,
            rejection_count: self.rejection_count,
        }
    }
}

fn cap_bps(x: u64) -> (r: u16)
    ensures
        r == capped_bps(x),
{
    if x < 65535 { x as u16 } else { 65535 }
}

impl FatFingerValidator {
    /// A validator with the given collar and staleness limit, no mid-price
    /// yet and no rejections.
    pub fn new(collar_bps: u16, max_stale_ns: u64) -> (r: Self)
        ensures
            r@ == (FatFingerView {
                mid_price: 0,
                mid_price_timestamp_ns: 0,
                collar_bps,
                max_stale_ns,
                rejection_count: 0,
            }),
    {
        FatFingerValidator { mid_price: 0, mid_price_timestamp_ns: 0, collar_bps, max_stale_ns, rejection_count: 0 }
    }

    /// Record a new mid-price observed at `timestamp_ns`.
    pub fn update_mid_price(&mut self, price: u64, timestamp_ns: u64)
        ensures
            final(self)@ == (FatFingerView {
                mid_price: price,
                mid_price_timestamp_ns: timestamp_ns,
                ..old(self)@
            }),
    {
        self.mid_price = price;
        self.mid_price_timestamp_ns = timestamp_ns;
    }

    /// Check a limit price against the collar; a violation advances the
    /// rejection counter.
    pub fn validate_limit_price(&mut self, submitted_price: u64, is_buy: bool, current_time_ns: u64) -> (r: FatFingerResult)
        ensures
            r == limit_price_verdict(old(self)@, submitted_price, is_buy, current_time_ns),
            final(self)@ == (FatFingerView {
                rejection_count: if is_violation(r) {
                    old(self)@.rejection_count.wrapping_add(1)
                } else {
                    old(self)@.rejection_count
                },
                ..old(self)@
            }),
    {
        let mid_price = self.mid_price;
        if mid_price == 0 {
            return FatFingerResult::StaleMidPrice;
        }
        let price_age_ns = current_time_ns.saturating_sub(self.mid_price_timestamp_ns);
        if price_age_ns > self.max_stale_ns {
            return FatFingerResult::StaleMidPrice;
        }
        let dev = deviation(mid_price, self.collar_bps);
        if is_buy {
            let max_allowed = mid_price.saturating_add(dev);
            if submitted_price > max_allowed {
                proof {
                    lemma_scaled_fits(submitted_price, 10000, 10000);
                    lemma_ratio_at_least(submitted_price as int, mid_price as int);
                }
                let ratio = submitted_price as u128 * 10000 / mid_price as u128;
                let deviation_bps = cap_bps((ratio - 10000) as u64);
                self.rejection_count = self.rejection_count.wrapping_add(1);
                return FatFingerResult::TooHigh { submitted_price, max_allowed, deviation_bps };
            }
        } else {
            let min_allowed = mid_price.saturating_sub(dev);
            if submitted_price < min_allowed && min_allowed > 0 {
                proof {
                    lemma_scaled_fits(submitted_price, 10000, 10000);
                    lemma_ratio_at_most(submitted_price as int, mid_price as int);
                }
                let ratio = submitted_price as u128 * 10000 / mid_price as u128;
                let deviation_bps = cap_bps((10000 - ratio) as u64);
                self.rejection_count = self.rejection_count.wrapping_add(1);
                return FatFingerResult::TooLow { submitted_price, min_allowed, deviation_bps };
            }
        }
        FatFingerResult::Valid
    }

    /// A market order needs no price check, only a fresh mid-price.
    pub fn validate_market_order(&self, current_time_ns: u64) -> (r: bool)
        ensures
            r == mid_is_fresh(self@, current_time_ns),
    {
        if self.mid_price == 0 {
            return false;
        }
        let price_age_ns = current_time_ns.saturating_sub(self.mid_price_timestamp_ns);
        price_age_ns <= self.max_stale_ns
    }

    /// The current mid-price.
    pub fn get_mid_price(&self) -> (r: u64)
        ensures
            r == self@.mid_price,
    {
        self.mid_price
    }

    /// Number of collar violations seen.
    pub fn rejection_count(&self) -> (r: u64)
        ensures
            r == self@.rejection_count,
    {
        self.rejection_count
    }

    /// Set the rejection counter to zero, returning its previous value.
    pub fn reset_rejection_count(&mut self) -> (r: u64)
        ensures
            r == old(self)@.rejection_count,
            final(self)@ == (FatFingerView { rejection_count: 0, ..old(self)@ }),
    {
        let previous = self.rejection_count;
        self.rejection_count = 0;
        previous
    }
}

/// With a fresh mid-price the validator accepts exactly the prices the
/// bound helpers call within bounds, and a refusal reports those bounds;
/// without one, every limit price is refused as stale.
pub proof fn verdict_agrees_with_bounds(v: FatFingerView, price: u64, is_buy: bool, now_ns: u64)
    ensures
        mid_is_fresh(v, now_ns) ==> ((limit_price_verdict(v, price, is_buy, now_ns) == FatFingerResult::Valid)
            <==> spec_within_bounds(price, v.mid_price, v.collar_bps, is_buy)),
        limit_price_verdict(v, price, is_buy, now_ns) matches FatFingerResult::TooHigh { max_allowed, .. }
            ==> max_allowed == spec_upper_bound(v.mid_price, v.collar_bps) && is_buy,
        limit_price_verdict(v, price, is_buy, now_ns) matches FatFingerResult::TooLow { min_allowed, .. }
            ==> min_allowed == spec_lower_bound(v.mid_price, v.collar_bps) && !is_buy,
        !mid_is_fresh(v, now_ns) ==> limit_price_verdict(v, price, is_buy, now_ns) == FatFingerResult::StaleMidPrice,
{
}

proof fn lemma_ratio_at_least(price: int, mid: int)
    requires
        0 < mid <= price,
    ensures
        (price * 10000) / mid >= 10000,
{
    assert((price * 10000) / mid >= 10000) by (nonlinear_arith)
        requires 0 < mid <= price;
}

proof fn lemma_ratio_at_most(price: int, mid: int)
    requires
        0 <= price <= mid,
        0 < mid,
    ensures
        (price * 10000) / mid <= 10000,
{
    assert((price * 10000) / mid <= 10000) by (nonlinear_arith)
        requires 0 <= price <= mid, 0 < mid;
}

} // verus!
