//! Administrative transitions: feature toggles, locking parameters,
//! collection updates, the revenue-partner table, and revenue payout.
//!
//! Every transition here is gated on the administrator identity from
//! the injected [`SolventConfig`] and rejects before mutating.

use crate::collection::{collection_info_valid, validate_collection_info, CollectionInfo};
use crate::constants::MAX_INTEREST_SCALER;
use crate::errors::SolventError;
use crate::fees::{
    fee_portion, share_sum, shares_sum_to_whole, split_flat_fee, RevenuePartner, RevenueShare,
};
use crate::keys::{key_list_contains, Pubkey};
use crate::state::{
    bucket_wf, BucketStateV3, MigrationState, RevenueDistributionParams, SolventConfig,
};
use vstd::prelude::*;

verus! {

/// Updates the locking parameters that are supplied, leaving the
/// others untouched; an interest scaler above [`MAX_INTEREST_SCALER`]
/// is rejected.
pub fn update_locking_params(
    bucket: &mut BucketStateV3,
    config: &SolventConfig,
    signer: Pubkey,
    max_locker_duration: Option<u64>,
    interest_scaler: Option<u8>,
) -> (r: Result<(), SolventError>)
    requires
        bucket_wf(*old(bucket)),
    ensures
        r is Ok <==> signer == config.admin && (interest_scaler matches Some(s) ==> s
            <= MAX_INTEREST_SCALER),
        r is Ok ==> *final(bucket) == (BucketStateV3 {
            max_locker_duration: match max_locker_duration {
                Some(d) => d,
                None => old(bucket).max_locker_duration,
            },
            interest_scaler: match interest_scaler {
                Some(s) => s,
                None => old(bucket).interest_scaler,
            },
            ..*old(bucket)
        }),
        bucket_wf(*final(bucket)),
        r matches Err(e) ==> {
            &&& *final(bucket) == *old(bucket)
            &&& if signer != config.admin {
                e == SolventError::AdminAccessUnauthorized
            } else {
                e == SolventError::InterestScalerInvalid
            }
        },
{
    if !(signer == config.admin) {
        return Err(SolventError::AdminAccessUnauthorized);
    }
    match interest_scaler {
        Some(s) => {
            if s > MAX_INTEREST_SCALER {
                return Err(SolventError::InterestScalerInvalid);
            }
            bucket.interest_scaler = s;
        },
        None => {},
    }
    match max_locker_duration {
        Some(d) => {
            bucket.max_locker_duration = d;
        },
        None => {},
    }
    Ok(())
}

/// Turns the lockers feature on or off.
pub fn set_locking_enabled(
    bucket: &mut BucketStateV3,
    config: &SolventConfig,
    signer: Pubkey,
    flag: bool,
) -> (r: Result<(), SolventError>)
    ensures
        r is Ok <==> signer == config.admin,
        r is Ok ==> *final(bucket) == (BucketStateV3 { is_locking_enabled: flag, ..*old(bucket) }),
        r matches Err(e) ==> *final(bucket) == *old(bucket) && e
            == SolventError::AdminAccessUnauthorized,
{
    if !(signer == config.admin) {
        return Err(SolventError::AdminAccessUnauthorized);
    }
    bucket.is_locking_enabled = flag;
    Ok(())
}

/// Turns the auto-staking feature on or off.
pub fn set_staking_enabled(
    bucket: &mut BucketStateV3,
    config: &SolventConfig,
    signer: Pubkey,
    flag: bool,
) -> (r: Result<(), SolventError>)
    ensures
        r is Ok <==> signer == config.admin,
        r is Ok ==> *final(bucket) == (BucketStateV3 { is_staking_enabled: flag, ..*old(bucket) }),
        r matches Err(e) ==> *final(bucket) == *old(bucket) && e
            == SolventError::AdminAccessUnauthorized,
{
    if !(signer == config.admin) {
        return Err(SolventError::AdminAccessUnauthorized);
    }
    bucket.is_staking_enabled = flag;
    Ok(())
}

/// Replaces the bucket's collection descriptor after validating it.
pub fn update_collection_info(
    bucket: &mut BucketStateV3,
    config: &SolventConfig,
    signer: Pubkey,
    collection_info: CollectionInfo,
) -> (r: Result<(), SolventError>)
    ensures
        r is Ok <==> signer == config.admin && collection_info_valid(collection_info),
        r is Ok ==> *final(bucket) == (BucketStateV3 { collection_info, ..*old(bucket) }),
        r matches Err(e) ==> {
            &&& *final(bucket) == *old(bucket)
            &&& if signer != config.admin {
                e == SolventError::AdminAccessUnauthorized
            } else {
                e == SolventError::CollectionSymbolInvalid || e
                    == SolventError::VerifiedCreatorsInvalid
            }
        },
{
    if !(signer == config.admin) {
        return Err(SolventError::AdminAccessUnauthorized);
    }
    match validate_collection_info(&collection_info) {
        Ok(()) => {},
        Err(e) => {
            return Err(e);
        },
    }
    bucket.collection_info = collection_info;
    Ok(())
}

/// Replaces the revenue-partner table wholesale.  A table whose basis
/// points sum to anything other than exactly one whole is rejected,
/// never normalized.
pub fn update_revenue_distribution_params(
    config: &SolventConfig,
    signer: Pubkey,
    droplet_mint: Pubkey,
    revenue_partners: Vec<RevenuePartner>,
    bump: u8,
) -> (r: Result<RevenueDistributionParams, SolventError>)
    ensures
        r is Ok <==> signer == config.admin && share_sum(revenue_partners@) == 10000,
        r matches Ok(p) ==> p == (RevenueDistributionParams { bump, droplet_mint, revenue_partners }),
        r matches Err(e) ==> if signer != config.admin {
            e == SolventError::AdminAccessUnauthorized
        } else {
            e == SolventError::RevenueDistributionParamsInvalid
        },
{
    if !(signer == config.admin) {
        return Err(SolventError::AdminAccessUnauthorized);
    }
    if !shares_sum_to_whole(&revenue_partners) {
        return Err(SolventError::RevenueDistributionParamsInvalid);
    }
    Ok(RevenueDistributionParams { bump, droplet_mint, revenue_partners })
}

/// Replaces the newer per-mint revenue distribution record; the same
/// rule as [`update_revenue_distribution_params`], against the record
/// stored under the distribution-state address.
pub fn update_revenue_distribution_state(
    config: &SolventConfig,
    signer: Pubkey,
    droplet_mint: Pubkey,
    revenue_partners: Vec<RevenuePartner>,
    bump: u8,
) -> (r: Result<RevenueDistributionParams, SolventError>)
    ensures
        r is Ok <==> signer == config.admin && share_sum(revenue_partners@) == 10000,
        r matches Ok(p) ==> p == (RevenueDistributionParams { bump, droplet_mint, revenue_partners }),
        r matches Err(e) ==> if signer != config.admin {
            e == SolventError::AdminAccessUnauthorized
        } else {
            e == SolventError::RevenueDistributionParamsInvalid
        },
{
    if !(signer == config.admin) {
        return Err(SolventError::AdminAccessUnauthorized);
    }
    if !shares_sum_to_whole(&revenue_partners) {
        return Err(SolventError::RevenueDistributionParamsInvalid);
    }
    Ok(RevenueDistributionParams { bump, droplet_mint, revenue_partners })
}

/// A partner can be paid out of `total_value` when its cut is
/// computable and a destination account for it was supplied.
pub open spec fn partner_payable(
    total_value: int,
    partner: RevenuePartner,
    destinations: Seq<Pubkey>,
) -> bool {
    &&& total_value * (partner.share_basis_points as int) <= u64::MAX
    &&& destinations.contains(partner.address)
}

/// Pays the collected revenue out to the partner table.
///
/// `droplet_balance` is the distribution account's balance and
/// `rent_minimum` the part of it that must stay behind; the difference
/// is the revenue distributed.  `destinations` are the recipient
/// accounts the caller supplied: every partner must find its own
/// there, or the whole distribution fails atomically with no payout
/// reported.
pub fn distribute_revenue(
    config: &SolventConfig,
    signer: Pubkey,
    params: &RevenueDistributionParams,
    droplet_balance: u64,
    rent_minimum: u64,
    destinations: &Vec<Pubkey>,
) -> (r: Result<Vec<RevenueShare>, SolventError>)
    requires
        droplet_balance >= rent_minimum,
    ensures
        r is Ok <==> signer == config.admin && (forall|i: int|
            0 <= i < params.revenue_partners@.len() ==> partner_payable(
                droplet_balance - rent_minimum,
                params.revenue_partners@[i],
                destinations@,
            )),
        r matches Ok(shares) ==> {
            &&& shares@.len() == params.revenue_partners@.len()
            &&& forall|i: int|
                0 <= i < shares@.len() ==> shares@[i].address
                    == params.revenue_partners@[i].address && shares@[i].amount == fee_portion(
                    droplet_balance - rent_minimum,
                    params.revenue_partners@[i].share_basis_points as int,
                )
        },
        r matches Err(e) ==> if signer != config.admin {
            e == SolventError::AdminAccessUnauthorized
        } else {
            exists|i: int|
                {
                    &&& 0 <= i < params.revenue_partners@.len()
                    &&& !partner_payable(
                        droplet_balance - rent_minimum,
                        #[trigger] params.revenue_partners@[i],
                        destinations@,
                    )
                    &&& (forall|j: int|
                        0 <= j < i ==> partner_payable(
                            droplet_balance - rent_minimum,
                            params.revenue_partners@[j],
                            destinations@,
                        ))
                    &&& e == if (droplet_balance - rent_minimum) * (
                    params.revenue_partners@[i].share_basis_points as int) > u64::MAX {
                        SolventError::ArithmeticOverflow
                    } else {
                        SolventError::RevenueDistributionParamsInvalid
                    }
                }
        },
{
    if !(signer == config.admin) {
        return Err(SolventError::AdminAccessUnauthorized);
    }
    let total_collected_revenue = droplet_balance - rent_minimum;
    let mut shares: Vec<RevenueShare> = Vec::new();
    let mut i: usize = 0;
    while i < params.revenue_partners.len()
        invariant
            signer == config.admin,
            droplet_balance >= rent_minimum,
            total_collected_revenue == droplet_balance - rent_minimum,
            i <= params.revenue_partners@.len(),
            shares@.len() == i,
            forall|j: int|
                0 <= j < i ==> partner_payable(
                    droplet_balance - rent_minimum,
                    params.revenue_partners@[j],
                    destinations@,
                ),
            forall|j: int|
                0 <= j < i ==> shares@[j].address == params.revenue_partners@[j].address
                    && shares@[j].amount == fee_portion(
                    droplet_balance - rent_minimum,
                    params.revenue_partners@[j].share_basis_points as int,
                ),
        decreases params.revenue_partners@.len() - i,
    {
        let partner = params.revenue_partners[i];
        let amount = match split_flat_fee(total_collected_revenue, partner.share_basis_points) {
            Some(a) => a,
            None => {
                return Err(SolventError::ArithmeticOverflow);
            },
        };
        if !key_list_contains(destinations, &partner.address) {
            return Err(SolventError::RevenueDistributionParamsInvalid);
        }
        shares.push(RevenueShare { address: partner.address, amount });
        i += 1;
    }
    Ok(shares)
}

/// The claimable balance of the engine's authority account: everything
/// above the rent minimum that must stay behind.
pub fn claim_balance(authority_lamports: u64, rent_minimum: u64) -> (r: u64)
    requires
        authority_lamports >= rent_minimum,
    ensures
        r == authority_lamports - rent_minimum,
{
    authority_lamports - rent_minimum
}

/// Opens the legacy migration by recording which old droplet mint maps
/// to which new one.
pub fn start_migration(
    config: &SolventConfig,
    signer: Pubkey,
    droplet_mint_old: Pubkey,
    droplet_mint_new: Pubkey,
    bump: u8,
) -> (r: Result<MigrationState, SolventError>)
    ensures
        r is Ok <==> signer == config.admin,
        r matches Ok(m) ==> m == (MigrationState { bump, droplet_mint_new, droplet_mint_old }),
        r matches Err(e) ==> e == SolventError::AdminAccessUnauthorized,
{
    if !(signer == config.admin) {
        return Err(SolventError::AdminAccessUnauthorized);
    }
    Ok(MigrationState { bump, droplet_mint_new, droplet_mint_old })
}

} // verus!
