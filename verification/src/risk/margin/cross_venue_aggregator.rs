//! Trading venues of the cross-venue margin aggregator.

use vstd::prelude::*;

verus! {

/// A trading venue.
#[derive(Debug, Clone, Copy, PartialEq, Eq, Hash, Structural)]
pub enum Venue {
    Binance,
    Bybit,
    Deribit,
    OKX,
    Coinbase,
    Kraken,
    /// Any other venue, by number.
    Custom(u8),
}

impl Venue {
    /// The venue's lower-case name; every custom venue is `"custom"`.
    pub fn as_str(&self) -> (r: &'static str)
        ensures
            r@ == match *self {
                Venue::Binance => "binance"@,
                Venue::Bybit => "bybit"@,
                Venue::Deribit => "deribit"@,
                Venue::OKX => "okx"@,
                Venue::Coinbase => "coinbase"@,
                Venue::Kraken => "kraken"@,
                Venue::Custom(_) => "custom"@,
            },
    {
        match self {
            Venue::Binance => "binance",
            Venue::Bybit => "bybit",
            Venue::Deribit => "deribit",
            Venue::OKX => "okx",
            Venue::Coinbase => "coinbase",
            Venue::Kraken => "kraken",
            Venue::Custom(_) => "custom",
        }
    }
}

} // verus!
