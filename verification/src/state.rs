//! The durable records of the engine, as plain values.

use crate::collection::CollectionInfo;
use crate::constants::{full_value, MAX_INTEREST_SCALER};
use crate::fees::RevenuePartner;
use crate::keys::Pubkey;
use vstd::prelude::*;

verus! {

/// Fixed identities injected into the engine at construction, so that
/// authorization checks are explicit instead of baked-in module
/// constants.
#[derive(Clone, Copy, PartialEq, Eq, Debug)]
pub struct SolventConfig {
    /// The administrator allowed to run configuration updates.
    pub admin: Pubkey,
    /// The treasury collecting redemption and swap fees.
    pub core_treasury: Pubkey,
    /// The treasury collecting locker interest and liquidation value.
    pub lockers_treasury: Pubkey,
    /// The crank allowed to run the legacy migration.
    pub migration_crank: Pubkey,
}

/// Addresses of the external farm the bucket stakes into.
#[derive(Clone, Copy, PartialEq, Eq, Debug)]
pub struct StakingParams {
    pub gembank_program: Pubkey,
    pub gemfarm_program: Pubkey,
    pub gemworks_farm: Pubkey,
    pub gemworks_fee_account: Pubkey,
}

/// One bucket: the per-collection container tracking backing counts
/// and configuration.
#[derive(Clone, PartialEq, Eq, Debug)]
pub struct BucketStateV3 {
    pub bump: u8,
    /// The droplet mint this bucket backs.
    pub droplet_mint: Pubkey,
    /// How members of the collection are recognised.
    pub collection_info: CollectionInfo,
    /// Whether the lockers feature is enabled.
    pub is_locking_enabled: bool,
    /// Longest allowed locker duration, in seconds.
    pub max_locker_duration: u64,
    /// Interest scaler, 0 to [`MAX_INTEREST_SCALER`].
    pub interest_scaler: u8,
    /// NFTs held directly, backing droplets.
    pub num_nfts_in_bucket: u16,
    /// NFTs collateralizing open lockers.
    pub num_nfts_in_lockers: u16,
    /// Whether the auto-staking feature is enabled.
    pub is_staking_enabled: bool,
    /// Farm addresses; either all present or absent.
    pub staking_params: Option<StakingParams>,
}

/// A bucket's configuration invariant: the interest scaler never
/// exceeds its maximum.  Established at creation and preserved by
/// every update.
pub open spec fn bucket_wf(bucket: BucketStateV3) -> bool {
    bucket.interest_scaler <= MAX_INTEREST_SCALER
}

/// One open locker loan, collateralized by one NFT.
#[derive(Clone, Copy, PartialEq, Eq, Debug)]
pub struct LockerState {
    pub bump: u8,
    /// Droplet mint of the bucket the NFT came from.
    pub droplet_mint: Pubkey,
    /// The borrower: only this identity may unlock.
    pub depositor: Pubkey,
    /// The collateral NFT.
    pub nft_mint: Pubkey,
    /// When the locker was created, in seconds.
    pub creation_timestamp: u64,
    /// Loan duration, in seconds.
    pub duration: u64,
    /// Droplets minted to the borrower.
    pub principal_amount: u64,
    /// Most interest the borrower can owe, reached exactly at expiry.
    pub max_interest_payable: u64,
}

/// A locker's invariant: principal and maximum interest never exceed
/// the full droplet value of one NFT.  Every locker the engine creates
/// satisfies this.
pub open spec fn locker_wf(locker: LockerState) -> bool {
    &&& locker.principal_amount <= full_value()
    &&& locker.max_interest_payable <= full_value()
}

/// One NFT held directly by a bucket.
#[derive(Clone, Copy, PartialEq, Eq, Debug)]
pub struct DepositState {
    pub bump: u8,
    pub droplet_mint: Pubkey,
    pub nft_mint: Pubkey,
}

/// Per-caller swap eligibility: a single flag granting exactly one
/// discounted swap redemption after a deposit-for-swap.
#[derive(Clone, Copy, PartialEq, Eq, Debug)]
pub struct SwapState {
    pub bump: u8,
    pub signer: Pubkey,
    pub flag: bool,
}

/// The legacy migration record tying an old droplet mint to its
/// replacement.
#[derive(Clone, Copy, PartialEq, Eq, Debug)]
pub struct MigrationState {
    pub bump: u8,
    pub droplet_mint_new: Pubkey,
    pub droplet_mint_old: Pubkey,
}

/// The stored revenue-partner table of a droplet mint; accepted only
/// when the shares sum to exactly one whole.
#[derive(Clone, PartialEq, Eq, Debug)]
pub struct RevenueDistributionParams {
    pub bump: u8,
    pub droplet_mint: Pubkey,
    pub revenue_partners: Vec<RevenuePartner>,
}

} // verus!
