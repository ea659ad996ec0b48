//! Numeric constants of the droplet economy.

use vstd::prelude::*;

verus! {

/// Base units per droplet (the droplet token has 8 decimals).
pub const LAMPORTS_PER_DROPLET: u64 = 100000000;

/// Droplets minted for one whole NFT.
pub const DROPLETS_PER_NFT: u8 = 100;

/// Largest allowed interest scaler; a scaler of this value leaves the
/// quoted interest unscaled.
pub const MAX_INTEREST_SCALER: u8 = 100;

/// Liquidation reward, expressed as a percentage of the deficit.
pub const LIQUIDATION_REWARD_PERCENTAGE: u8 = 20;

/// Fee charged on an ordinary redemption, in basis points.
pub const REDEEM_FEE_BASIS_POINTS: u8 = 200;

/// Fee charged on a swap, in basis points.
pub const SWAP_FEE_BASIS_POINTS: u8 = 50;

/// Share of each fee routed to the distributor, in basis points.
pub const DISTRIBUTOR_FEE_BASIS_POINTS: u16 = 1000;

/// Basis-point denominator: 10,000 basis points make a whole.
pub const BASIS_POINTS_DENOMINATOR: u16 = 10000;

/// Base units backing one whole NFT: `DROPLETS_PER_NFT` droplets of
/// `LAMPORTS_PER_DROPLET` base units each.
pub open spec fn full_value() -> int {
    DROPLETS_PER_NFT as int * LAMPORTS_PER_DROPLET as int
}

/// Exec counterpart of [`full_value`].
pub fn full_value_amount() -> (r: u64)
    ensures
        r == full_value(),
{
    DROPLETS_PER_NFT as u64 * LAMPORTS_PER_DROPLET
}

} // verus!
