//! Numeric ids of the assets the portfolio trades in. The unverified
//! shell maps runtime asset addresses and symbols onto these ids.

use vstd::prelude::*;

verus! {

/// The fund's own token.
pub const ASSET_KALE: u64 = 1;

/// The BTC hedge position.
pub const ASSET_BTC: u64 = 2;

/// The stable reserve.
pub const ASSET_USDC: u64 = 3;

/// The native network token.
pub const ASSET_XLM: u64 = 4;

} // verus!
