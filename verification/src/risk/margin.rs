//! Margin management across venues, and the pacing of deleveraging.

pub mod auto_deleverager;
pub mod cross_venue_aggregator;

pub use cross_venue_aggregator::Venue;
