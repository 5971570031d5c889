//! Conversions between whole coins and their smallest units.

use vstd::prelude::*;

verus! {

/// Satoshis per bitcoin.
pub const SATOSHI_PER_BTC: u64 = 100_000_000;

/// Wei per ether.
pub const WEI_PER_ETH: u128 = 1_000_000_000_000_000_000;

/// Bitcoin to satoshis, saturating at `u64::MAX`.
pub fn btc_to_satoshi(btc: u64) -> (r: u64)
    ensures
        r == (if btc * SATOSHI_PER_BTC > u64::MAX { u64::MAX as int } else { btc * SATOSHI_PER_BTC }),
{
    match btc.checked_mul(SATOSHI_PER_BTC) {
        Some(v) => v,
        None => u64::MAX,
    }
}

/// Satoshis to whole bitcoin, truncating.
pub fn satoshi_to_btc(satoshis: u64) -> (r: u64)
    ensures
        r == satoshis / SATOSHI_PER_BTC,
{
    satoshis / SATOSHI_PER_BTC
}

/// Ether to wei; the product always fits in 128 bits.
pub fn eth_to_wei(eth: u64) -> (r: u128)
    ensures
        r == eth * WEI_PER_ETH,
{
    assert(eth * WEI_PER_ETH <= u128::MAX) by (nonlinear_arith)
        requires eth <= u64::MAX, WEI_PER_ETH == 1_000_000_000_000_000_000u128;
    eth as u128 * WEI_PER_ETH
}

/// Wei to whole ether, truncating and taken to 64 bits.
pub fn wei_to_eth(wei: u128) -> (r: u64)
    ensures
        r == (wei / WEI_PER_ETH) as u64,
{
    (wei / WEI_PER_ETH) as u64
}

/// Converting whole bitcoin to satoshis and back gives the same amount,
/// wherever the satoshi amount fits in 64 bits.
pub proof fn btc_roundtrip(btc: u64)
    requires
        btc * SATOSHI_PER_BTC <= u64::MAX,
    ensures
        (btc * SATOSHI_PER_BTC) / (SATOSHI_PER_BTC as int) == btc,
{
    assert((btc * SATOSHI_PER_BTC) / (SATOSHI_PER_BTC as int) == btc) by (nonlinear_arith)
        requires SATOSHI_PER_BTC == 100_000_000u64;
}

/// Converting ether to wei and back gives the same amount.
pub proof fn eth_roundtrip(eth: u64)
    ensures
        (eth * WEI_PER_ETH) / (WEI_PER_ETH as int) == eth,
        ((eth * WEI_PER_ETH) / (WEI_PER_ETH as int)) as u64 == eth,
{
    assert((eth * WEI_PER_ETH) / (WEI_PER_ETH as int) == eth) by (nonlinear_arith)
        requires WEI_PER_ETH == 1_000_000_000_000_000_000u128;
}

} // verus!
