//! Auto-staking of held NFTs into an external farm: the decisions the
//! engine makes around the farm, over plain values.
//!
//! The farm itself is an external collaborator; the engine only
//! decides whether its configuration is acceptable and which staking
//! step is due, and reports the step for the caller to perform.

use crate::errors::SolventError;
use crate::keys::Pubkey;
use crate::state::{BucketStateV3, SolventConfig, StakingParams};
use vstd::prelude::*;

verus! {

/// The farm settings the engine reads before trusting a farm.
#[derive(Clone, Copy, PartialEq, Eq, Structural, Debug)]
pub struct FarmConfig {
    pub min_staking_period_sec: u64,
    pub cooldown_period_sec: u64,
    pub unstaking_fee_lamp: u64,
}

/// The lifecycle state of the farm-side staking position.
#[derive(Clone, Copy, PartialEq, Eq, Structural, Debug)]
pub enum FarmerState {
    Unstaked,
    Staked,
    PendingCooldown,
}

/// The farm-side staking position of one NFT, as plain values.
#[derive(Clone, Copy, PartialEq, Eq, Structural, Debug)]
pub struct FarmerInfo {
    pub state: FarmerState,
    /// When the cooldown ends, in seconds; meaningful while pending.
    pub cooldown_ends_ts: u64,
}

/// A farm is suitable for staking only when it imposes no minimum
/// staking period, no cooldown, and either no unstaking fee or one
/// large enough to be genuine.
pub open spec fn farm_suitable(farm_config: FarmConfig) -> bool {
    &&& farm_config.min_staking_period_sec == 0
    &&& farm_config.cooldown_period_sec == 0
    &&& (farm_config.unstaking_fee_lamp == 0 || farm_config.unstaking_fee_lamp >= 890880)
}

/// Decides whether a farm's configuration is sane and suitable for
/// staking; see [`farm_suitable`].
pub fn validate_farm(farm_config: &FarmConfig) -> (r: bool)
    ensures
        r == farm_suitable(*farm_config),
{
    farm_config.min_staking_period_sec == 0 && farm_config.cooldown_period_sec == 0 && (
    farm_config.unstaking_fee_lamp == 0 || farm_config.unstaking_fee_lamp >= 890880)
}

/// Decides whether the bank account presented is the one the farm
/// declares.
pub fn validate_bank(farm_bank: &Pubkey, bank: &Pubkey) -> (r: bool)
    ensures
        r == (*farm_bank == *bank),
{
    let eq = *farm_bank == *bank;
    proof {
        if farm_bank.0 == bank.0 {
            assert(*farm_bank == *bank);
        }
    }
    eq
}

/// Stores the farm addresses a bucket stakes into, after checking the
/// caller is the administrator and the farm is suitable.
pub fn update_staking_params(
    bucket: &mut BucketStateV3,
    config: &SolventConfig,
    signer: Pubkey,
    staking_params: StakingParams,
    farm_config: &FarmConfig,
) -> (r: Result<(), SolventError>)
    ensures
        r is Ok <==> signer == config.admin && farm_suitable(*farm_config),
        r is Ok ==> *final(bucket) == (BucketStateV3 {
            staking_params: Some(staking_params),
            ..*old(bucket)
        }),
        r matches Err(e) ==> {
            &&& *final(bucket) == *old(bucket)
            &&& if signer != config.admin {
                e == SolventError::AdminAccessUnauthorized
            } else {
                e == SolventError::FarmConfigInvalid
            }
        },
{
    if !(signer == config.admin) {
        return Err(SolventError::AdminAccessUnauthorized);
    }
    if !validate_farm(farm_config) {
        return Err(SolventError::FarmConfigInvalid);
    }
    bucket.staking_params = Some(staking_params);
    Ok(())
}

/// Gates the staking of a held NFT: staking must be enabled and the
/// farm addresses configured.  Returns the addresses the staking calls
/// must target.
pub fn stake_nft(bucket: &BucketStateV3) -> (r: Result<StakingParams, SolventError>)
    ensures
        r is Ok <==> bucket.is_staking_enabled && bucket.staking_params is Some,
        r matches Ok(p) ==> bucket.staking_params == Some(p),
        r matches Err(e) ==> if !bucket.is_staking_enabled {
            e == SolventError::StakingDisabled
        } else {
            e == SolventError::FarmingParamsInvalid
        },
{
    if !bucket.is_staking_enabled {
        return Err(SolventError::StakingDisabled);
    }
    match bucket.staking_params {
        Some(p) => Ok(p),
        None => Err(SolventError::FarmingParamsInvalid),
    }
}

/// The farm-side step an unstake request must perform next.
#[derive(Clone, Copy, PartialEq, Eq, Structural, Debug)]
pub enum UnstakeAction {
    /// The NFT is staked: unstake once, putting it into cooldown.
    BeginUnstake,
    /// The cooldown has passed: unstake again, withdraw the NFT from
    /// the vault, and claim the accumulated rewards.
    CompleteUnstake,
    /// The position is already unstaked: nothing to do at the farm.
    NoAction,
}

/// Decides the next unstaking step from the farm-side position and the
/// clock.  Rejected with `StakingCooldownPending` exactly when the
/// position is cooling down and the cooldown has not yet ended.
pub fn unstake_nft(farmer: &FarmerInfo, now: u64) -> (r: Result<UnstakeAction, SolventError>)
    ensures
        r is Ok <==> !(farmer.state is PendingCooldown && now < farmer.cooldown_ends_ts),
        r matches Ok(a) ==> a == (match farmer.state {
            FarmerState::Staked => UnstakeAction::BeginUnstake,
            FarmerState::PendingCooldown => UnstakeAction::CompleteUnstake,
            FarmerState::Unstaked => UnstakeAction::NoAction,
        }),
        r matches Err(e) ==> e == SolventError::StakingCooldownPending,
{
    match farmer.state {
        FarmerState::Staked => Ok(UnstakeAction::BeginUnstake),
        FarmerState::PendingCooldown => {
            if now >= farmer.cooldown_ends_ts {
                Ok(UnstakeAction::CompleteUnstake)
            } else {
                Err(SolventError::StakingCooldownPending)
            }
        },
        FarmerState::Unstaked => Ok(UnstakeAction::NoAction),
    }
}

} // verus!
