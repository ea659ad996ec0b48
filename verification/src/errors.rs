//! Error conditions surfaced by the accounting engine.
//!
//! Every transition rejects its input *before* any counter is mutated or
//! any balance-moving amount is reported, so an `Err` always leaves the
//! caller's state exactly as it was.

use vstd::prelude::*;

verus! {

/// The reasons a transition can refuse to run.
#[derive(Clone, Copy, PartialEq, Eq, Structural, Debug)]
pub enum SolventError {
    /// The NFT collection symbol entered is invalid.
    CollectionSymbolInvalid,
    /// There should be 1 to 5 verified creators.
    VerifiedCreatorsInvalid,
    /// Failed to verify if the NFT belongs to the collection.
    CollectionVerificationFailed,
    /// Locking duration entered is too long.
    LockerDurationInvalid,
    /// There are no NFTs in the bucket.
    BucketEmpty,
    /// The locker has expired and is up for liquidation.
    LockerExpired,
    /// The locker is still active and not up for liquidation.
    LockerActive,
    /// Insufficient droplets to unlock the NFT.
    DropletsInsufficient,
    /// Interest scaler entered is larger than the max value.
    InterestScalerInvalid,
    /// Lockers feature is disabled on this collection.
    LockersDisabled,
    /// The caller does not have administrator access.
    AdminAccessUnauthorized,
    /// The treasury account entered is invalid.
    SolventTreasuryInvalid,
    /// The locker is not owned by the caller.
    LockerAccessUnauthorized,
    /// If farming is enabled, farming params must have all the pubkeys.
    FarmingParamsInvalid,
    /// The farm is not suitable for staking.
    FarmConfigInvalid,
    /// Auto-staking feature is disabled on this collection.
    StakingDisabled,
    /// The staked NFT is in cooldown period.
    StakingCooldownPending,
    /// Cannot redeem an NFT as part of a swap without depositing one first.
    SwapNotAllowed,
    /// Internal error while calculating fee distribution.
    FeeDistributionIncorrect,
    /// The migration crank account entered is invalid.
    SolventMigrationCrankInvalid,
    /// Cannot deposit an additional NFT before closing active swap states.
    DepositNotAllowed,
    /// The revenue distribution parameters are invalid.
    RevenueDistributionParamsInvalid,
    /// A checked arithmetic operation would overflow or divide by zero;
    /// the whole operation is aborted rather than wrapped or clamped.
    ArithmeticOverflow,
}

} // verus!
