//! The bucket ledger: deposit, redemption, swap, locking, unlocking,
//! and liquidation as atomic transitions over plain state.
//!
//! Each transition validates first and mutates second: on `Err` the
//! state passed in is exactly as it was, and no amount is reported for
//! moving.  The balance-moving calls themselves (token transfers,
//! mints, burns) are the caller's concern; an `Ok` outcome names every
//! amount to move and every record to create or close.

use crate::collection::{collection_verified, verify_collection, CollectionInfo, NftMetadata};
use crate::constants::{
    full_value, full_value_amount, DISTRIBUTOR_FEE_BASIS_POINTS, LIQUIDATION_REWARD_PERCENTAGE,
    REDEEM_FEE_BASIS_POINTS, SWAP_FEE_BASIS_POINTS,
};
use crate::errors::SolventError;
use crate::fees::{fee_portion, liquidation_reward, split_flat_fee, split_liquidation};
use crate::keys::Pubkey;
use crate::loan::{
    accrual_fits, accrue_interest, accrued_interest, calculate_loan, lemma_loan_quote_bounds,
    loan_fits, loan_principal, scaled_interest, CalculateLoanArgs, CalculateLoanResult,
};
use crate::state::{bucket_wf, locker_wf, BucketStateV3, DepositState, LockerState, SwapState};
use vstd::prelude::*;

verus! {

/// Fee charged on an ordinary redemption, in base units.
pub open spec fn redeem_fee() -> int {
    fee_portion(full_value(), REDEEM_FEE_BASIS_POINTS as int)
}

/// Fee charged on a swap, in base units.
pub open spec fn swap_fee() -> int {
    fee_portion(full_value(), SWAP_FEE_BASIS_POINTS as int)
}

/// Creates the bucket for a collection, with every counter at zero and
/// every feature disabled until an administrator turns it on.
pub fn create_bucket(droplet_mint: Pubkey, collection_info: CollectionInfo, bump: u8) -> (r:
    Result<BucketStateV3, SolventError>)
    ensures
        r is Ok <==> crate::collection::collection_info_valid(collection_info),
        r matches Ok(bucket) ==> bucket == (BucketStateV3 {
            bump,
            droplet_mint,
            collection_info,
            is_locking_enabled: false,
            max_locker_duration: 0,
            interest_scaler: 0,
            num_nfts_in_bucket: 0,
            num_nfts_in_lockers: 0,
            is_staking_enabled: false,
            staking_params: None,
        }),
        r matches Err(e) ==> e == SolventError::CollectionSymbolInvalid || e
            == SolventError::VerifiedCreatorsInvalid,
{
    match crate::collection::validate_collection_info(&collection_info) {
        Ok(()) => {},
        Err(e) => {
            return Err(e);
        },
    }
    Ok(
        BucketStateV3 {
            bump,
            droplet_mint,
            collection_info,
            is_locking_enabled: false,
            max_locker_duration: 0,
            interest_scaler: 0,
            num_nfts_in_bucket: 0,
            num_nfts_in_lockers: 0,
            is_staking_enabled: false,
            staking_params: None,
        },
    )
}

/// What a plain deposit moves: the record to create and the droplets
/// to mint to the depositor.
#[derive(Clone, Copy, PartialEq, Eq, Debug)]
pub struct DepositOutcome {
    pub deposit_state: DepositState,
    pub droplets_to_user: u64,
}

/// Deposits an NFT into the bucket against freshly minted droplets.
///
/// Accepted exactly when the NFT verifies against the bucket's
/// collection and the held-count does not overflow; then the held-count
/// rises by one and exactly the full value of one NFT is minted.
pub fn deposit_nft(
    bucket: &mut BucketStateV3,
    nft_mint: Pubkey,
    metadata: &NftMetadata,
    whitelist_proof: Option<Vec<[u8; 32]>>,
    deposit_state_bump: u8,
) -> (r: Result<DepositOutcome, SolventError>)
    ensures
        r is Ok <==> collection_verified(*metadata, old(bucket).collection_info, whitelist_proof)
            && old(bucket).num_nfts_in_bucket < u16::MAX,
        r matches Ok(o) ==> {
            &&& *final(bucket) == (BucketStateV3 {
                num_nfts_in_bucket: (old(bucket).num_nfts_in_bucket + 1) as u16,
                ..*old(bucket)
            })
            &&& o.droplets_to_user == full_value()
            &&& o.deposit_state == (DepositState {
                bump: deposit_state_bump,
                droplet_mint: old(bucket).droplet_mint,
                nft_mint,
            })
        },
        r matches Err(e) ==> {
            &&& *final(bucket) == *old(bucket)
            &&& if !collection_verified(*metadata, old(bucket).collection_info, whitelist_proof) {
                e == SolventError::CollectionVerificationFailed
            } else {
                e == SolventError::ArithmeticOverflow
            }
        },
{
    if !verify_collection(metadata, &bucket.collection_info, whitelist_proof) {
        return Err(SolventError::CollectionVerificationFailed);
    }
    let new_count = match bucket.num_nfts_in_bucket.checked_add(1) {
        Some(v) => v,
        None => {
            return Err(SolventError::ArithmeticOverflow);
        },
    };
    bucket.num_nfts_in_bucket = new_count;
    Ok(
        DepositOutcome {
            deposit_state: DepositState {
                bump: deposit_state_bump,
                droplet_mint: bucket.droplet_mint,
                nft_mint,
            },
            droplets_to_user: full_value_amount(),
        },
    )
}

/// What a deposit-for-swap moves: the record to create, the swap
/// eligibility to store, the droplets minted to the depositor, and the
/// swap fee minted to the treasury.
#[derive(Clone, Copy, PartialEq, Eq, Debug)]
pub struct DepositForSwapOutcome {
    pub deposit_state: DepositState,
    pub swap_state: SwapState,
    pub droplets_to_user: u64,
    pub droplets_to_treasury: u64,
}

/// Deposits an NFT to open a swap: the depositor is minted the full
/// value minus the swap fee, the fee is minted to the treasury, and a
/// swap eligibility flag is granted for one discounted redemption.
///
/// Minted amounts conserve value: user plus treasury equals exactly
/// the full value of one NFT.
pub fn deposit_nft_for_swap(
    bucket: &mut BucketStateV3,
    signer: Pubkey,
    nft_mint: Pubkey,
    metadata: &NftMetadata,
    whitelist_proof: Option<Vec<[u8; 32]>>,
    deposit_state_bump: u8,
    swap_state_bump: u8,
) -> (r: Result<DepositForSwapOutcome, SolventError>)
    ensures
        r is Ok <==> collection_verified(*metadata, old(bucket).collection_info, whitelist_proof)
            && old(bucket).num_nfts_in_bucket < u16::MAX,
        r matches Ok(o) ==> {
            &&& *final(bucket) == (BucketStateV3 {
                num_nfts_in_bucket: (old(bucket).num_nfts_in_bucket + 1) as u16,
                ..*old(bucket)
            })
            &&& o.droplets_to_treasury == swap_fee()
            &&& o.droplets_to_user == full_value() - swap_fee()
            &&& o.droplets_to_user + o.droplets_to_treasury == full_value()
            &&& o.deposit_state == (DepositState {
                bump: deposit_state_bump,
                droplet_mint: old(bucket).droplet_mint,
                nft_mint,
            })
            &&& o.swap_state == (SwapState { bump: swap_state_bump, signer, flag: true })
        },
        r matches Err(e) ==> {
            &&& *final(bucket) == *old(bucket)
            &&& if !collection_verified(*metadata, old(bucket).collection_info, whitelist_proof) {
                e == SolventError::CollectionVerificationFailed
            } else {
                e == SolventError::ArithmeticOverflow
            }
        },
{
    if !verify_collection(metadata, &bucket.collection_info, whitelist_proof) {
        return Err(SolventError::CollectionVerificationFailed);
    }
    let new_count = match bucket.num_nfts_in_bucket.checked_add(1) {
        Some(v) => v,
        None => {
            return Err(SolventError::ArithmeticOverflow);
        },
    };
    let fee_amount = match split_flat_fee(full_value_amount(), SWAP_FEE_BASIS_POINTS as u16) {
        Some(f) => f,
        None => {
            return Err(SolventError::ArithmeticOverflow);
        },
    };
    proof {
        crate::fees::lemma_fee_portion_bounded(full_value(), SWAP_FEE_BASIS_POINTS as int);
    }
    bucket.num_nfts_in_bucket = new_count;
    Ok(
        DepositForSwapOutcome {
            deposit_state: DepositState {
                bump: deposit_state_bump,
                droplet_mint: bucket.droplet_mint,
                nft_mint,
            },
            swap_state: SwapState { bump: swap_state_bump, signer, flag: true },
            droplets_to_user: full_value_amount() - fee_amount,
            droplets_to_treasury: fee_amount,
        },
    )
}

/// What a redemption moves: the droplets burned from the caller, the
/// fee split transferred from the caller, and the NFT released.
#[derive(Clone, Copy, PartialEq, Eq, Debug)]
pub struct RedeemOutcome {
    pub droplets_to_burn: u64,
    pub total_fee: u64,
    pub fee_to_distributor: u64,
    pub fee_to_treasury: u64,
    pub released_nft_mint: Pubkey,
}

/// Redeems a held NFT against droplets.
///
/// An ordinary redemption (`swap == false`) burns exactly the full
/// value of one NFT from the caller and charges the redemption fee on
/// top.  A swap redemption consumes the caller's swap eligibility
/// (rejected with `SwapNotAllowed` when none is held), burns nothing,
/// and charges only the swap fee.  Either way the fee splits exactly
/// between distributor and treasury, the held-count falls by one, and
/// the NFT named by the deposit record is released.
///
/// The caller passes the deposit record of the NFT being redeemed;
/// while such a record exists the bucket holds at least one NFT.
pub fn redeem_nft(
    bucket: &mut BucketStateV3,
    deposit_state: &DepositState,
    swap_state: &mut SwapState,
    signer: Pubkey,
    swap: bool,
    swap_state_bump: u8,
) -> (r: Result<RedeemOutcome, SolventError>)
    requires
        old(bucket).num_nfts_in_bucket >= 1,
    ensures
        r is Ok <==> (swap ==> old(swap_state).flag),
        r matches Ok(o) ==> {
            &&& *final(bucket) == (BucketStateV3 {
                num_nfts_in_bucket: (old(bucket).num_nfts_in_bucket - 1) as u16,
                ..*old(bucket)
            })
            &&& *final(swap_state) == (SwapState {
                bump: swap_state_bump,
                signer,
                flag: old(swap_state).flag && !swap,
            })
            &&& o.droplets_to_burn == if swap {
                0int
            } else {
                full_value()
            }
            &&& o.total_fee == if swap {
                swap_fee()
            } else {
                redeem_fee()
            }
            &&& o.fee_to_distributor == fee_portion(
                o.total_fee as int,
                DISTRIBUTOR_FEE_BASIS_POINTS as int,
            )
            &&& o.fee_to_distributor + o.fee_to_treasury == o.total_fee
            &&& o.released_nft_mint == deposit_state.nft_mint
        },
        r matches Err(e) ==> {
            &&& *final(bucket) == *old(bucket)
            &&& *final(swap_state) == *old(swap_state)
            &&& e == SolventError::SwapNotAllowed
        },
{
    if swap && !swap_state.flag {
        return Err(SolventError::SwapNotAllowed);
    }
    swap_state.bump = swap_state_bump;
    swap_state.signer = signer;
    let fee_basis_points: u16;
    let droplets_to_burn: u64;
    if swap {
        fee_basis_points = SWAP_FEE_BASIS_POINTS as u16;
        swap_state.flag = false;
        droplets_to_burn = 0;
    } else {
        fee_basis_points = REDEEM_FEE_BASIS_POINTS as u16;
        droplets_to_burn = full_value_amount();
    }
    let total_fee = match split_flat_fee(full_value_amount(), fee_basis_points) {
        Some(f) => f,
        None => {
            // Unreachable: the fee product on one NFT's value fits.
            proof {
                assert(false);
            }
            return Err(SolventError::SwapNotAllowed);
        },
    };
    proof {
        crate::fees::lemma_fee_portion_bounded(full_value(), fee_basis_points as int);
    }
    let split = match crate::fees::split_distributor_share(
        total_fee,
        DISTRIBUTOR_FEE_BASIS_POINTS,
    ) {
        Some(s) => s,
        None => {
            // Unreachable: the distributor's share of a fee fits and
            // never exceeds the fee.
            proof {
                crate::fees::lemma_fee_portion_bounded(
                    total_fee as int,
                    DISTRIBUTOR_FEE_BASIS_POINTS as int,
                );
                assert(false);
            }
            return Err(SolventError::SwapNotAllowed);
        },
    };
    bucket.num_nfts_in_bucket = bucket.num_nfts_in_bucket - 1;
    Ok(
        RedeemOutcome {
            droplets_to_burn,
            total_fee,
            fee_to_distributor: split.distributor_amount,
            fee_to_treasury: split.treasury_amount,
            released_nft_mint: deposit_state.nft_mint,
        },
    )
}

/// What an atomic swap moves: the record created for the incoming NFT,
/// the swap fee transferred from the caller, and the NFT released.
#[derive(Clone, Copy, PartialEq, Eq, Debug)]
pub struct SwapOutcome {
    pub deposit_state_for_deposit: DepositState,
    pub fee_to_revenue_distribution: u64,
    pub released_nft_mint: Pubkey,
}

/// Swaps one NFT for another in a single transition: the incoming NFT
/// is verified and recorded, the NFT named by the redeemed deposit
/// record is released, and only the swap fee changes hands — the
/// bucket's counters stay untouched, so the swap is value-neutral.
pub fn swap_nfts(
    bucket: &BucketStateV3,
    deposit_state_for_redeem: &DepositState,
    nft_to_deposit_mint: Pubkey,
    nft_to_deposit_metadata: &NftMetadata,
    whitelist_proof: Option<Vec<[u8; 32]>>,
    deposit_state_bump: u8,
) -> (r: Result<SwapOutcome, SolventError>)
    ensures
        r is Ok <==> collection_verified(
            *nft_to_deposit_metadata,
            bucket.collection_info,
            whitelist_proof,
        ),
        r matches Ok(o) ==> {
            &&& o.fee_to_revenue_distribution == swap_fee()
            &&& o.deposit_state_for_deposit == (DepositState {
                bump: deposit_state_bump,
                droplet_mint: bucket.droplet_mint,
                nft_mint: nft_to_deposit_mint,
            })
            &&& o.released_nft_mint == deposit_state_for_redeem.nft_mint
        },
        r matches Err(e) ==> e == SolventError::CollectionVerificationFailed,
{
    if !verify_collection(nft_to_deposit_metadata, &bucket.collection_info, whitelist_proof) {
        return Err(SolventError::CollectionVerificationFailed);
    }
    let fee_amount = match split_flat_fee(full_value_amount(), SWAP_FEE_BASIS_POINTS as u16) {
        Some(f) => f,
        None => {
            // Unreachable: the fee product on one NFT's value fits.
            proof {
                assert(false);
            }
            return Err(SolventError::CollectionVerificationFailed);
        },
    };
    Ok(
        SwapOutcome {
            deposit_state_for_deposit: DepositState {
                bump: deposit_state_bump,
                droplet_mint: bucket.droplet_mint,
                nft_mint: nft_to_deposit_mint,
            },
            fee_to_revenue_distribution: fee_amount,
            released_nft_mint: deposit_state_for_redeem.nft_mint,
        },
    )
}

/// The quote inputs of a lock: the bucket's counters with the NFT
/// being locked already counted into the lockers.
pub open spec fn lock_quote_args(bucket: BucketStateV3, duration: u64) -> CalculateLoanArgs {
    CalculateLoanArgs {
        max_locker_duration: bucket.max_locker_duration,
        num_nfts_in_bucket: bucket.num_nfts_in_bucket,
        num_nfts_in_lockers: (bucket.num_nfts_in_lockers + 1) as u16,
        interest_scaler: bucket.interest_scaler,
        locker_duration: duration,
    }
}

/// What a lock produces: the locker record to create and the loan
/// quote, whose principal is minted to the borrower.
#[derive(Clone, Copy, PartialEq, Eq, Debug)]
pub struct LockOutcome {
    pub locker_state: LockerState,
    pub loan: CalculateLoanResult,
}

/// Locks an NFT as collateral for a droplet loan.
///
/// Accepted exactly when locking is enabled, the NFT verifies against
/// the collection, the bucket holds at least one NFT, the requested
/// duration is within the limit, and the quote fits in checked
/// arithmetic.  The locker-count rises by one and the quote is taken
/// on the post-increment counters; the created locker carries the
/// quoted principal and maximum interest and is well formed.
pub fn lock_nft(
    bucket: &mut BucketStateV3,
    signer: Pubkey,
    nft_mint: Pubkey,
    metadata: &NftMetadata,
    whitelist_proof: Option<Vec<[u8; 32]>>,
    now: u64,
    duration: u64,
    locker_state_bump: u8,
) -> (r: Result<LockOutcome, SolventError>)
    requires
        bucket_wf(*old(bucket)),
    ensures
        r is Ok <==> {
            &&& old(bucket).is_locking_enabled
            &&& collection_verified(*metadata, old(bucket).collection_info, whitelist_proof)
            &&& old(bucket).num_nfts_in_bucket > 0
            &&& duration <= old(bucket).max_locker_duration
            &&& old(bucket).num_nfts_in_lockers < u16::MAX
            &&& loan_fits(lock_quote_args(*old(bucket), duration))
        },
        r matches Ok(o) ==> {
            &&& *final(bucket) == (BucketStateV3 {
                num_nfts_in_lockers: (old(bucket).num_nfts_in_lockers + 1) as u16,
                ..*old(bucket)
            })
            &&& o.loan.principal_amount == loan_principal(lock_quote_args(*old(bucket), duration))
            &&& o.loan.max_interest_payable == scaled_interest(
                lock_quote_args(*old(bucket), duration),
            )
            &&& o.locker_state == (LockerState {
                bump: locker_state_bump,
                droplet_mint: old(bucket).droplet_mint,
                depositor: signer,
                nft_mint,
                creation_timestamp: now,
                duration,
                principal_amount: o.loan.principal_amount,
                max_interest_payable: o.loan.max_interest_payable,
            })
            &&& locker_wf(o.locker_state)
        },
        r matches Err(e) ==> {
            &&& *final(bucket) == *old(bucket)
            &&& if !old(bucket).is_locking_enabled {
                e == SolventError::LockersDisabled
            } else if !collection_verified(
                *metadata,
                old(bucket).collection_info,
                whitelist_proof,
            ) {
                e == SolventError::CollectionVerificationFailed
            } else if old(bucket).num_nfts_in_bucket == 0 {
                e == SolventError::BucketEmpty
            } else if duration > old(bucket).max_locker_duration {
                e == SolventError::LockerDurationInvalid
            } else {
                e == SolventError::ArithmeticOverflow
            }
        },
{
    if !bucket.is_locking_enabled {
        return Err(SolventError::LockersDisabled);
    }
    if !verify_collection(metadata, &bucket.collection_info, whitelist_proof) {
        return Err(SolventError::CollectionVerificationFailed);
    }
    if bucket.num_nfts_in_bucket == 0 {
        return Err(SolventError::BucketEmpty);
    }
    if duration > bucket.max_locker_duration {
        return Err(SolventError::LockerDurationInvalid);
    }
    let new_lockers = match bucket.num_nfts_in_lockers.checked_add(1) {
        Some(v) => v,
        None => {
            return Err(SolventError::ArithmeticOverflow);
        },
    };
    let args = CalculateLoanArgs {
        max_locker_duration: bucket.max_locker_duration,
        num_nfts_in_bucket: bucket.num_nfts_in_bucket,
        num_nfts_in_lockers: new_lockers,
        interest_scaler: bucket.interest_scaler,
        locker_duration: duration,
    };
    let loan = match calculate_loan(args) {
        Some(l) => l,
        None => {
            return Err(SolventError::ArithmeticOverflow);
        },
    };
    proof {
        lemma_loan_quote_bounds(args);
    }
    bucket.num_nfts_in_lockers = new_lockers;
    Ok(
        LockOutcome {
            locker_state: LockerState {
                bump: locker_state_bump,
                droplet_mint: bucket.droplet_mint,
                depositor: signer,
                nft_mint,
                creation_timestamp: now,
                duration,
                principal_amount: loan.principal_amount,
                max_interest_payable: loan.max_interest_payable,
            },
            loan,
        },
    )
}

/// What an unlock moves: the principal burned from the borrower, the
/// interest transferred to the treasury, and the NFT released.
#[derive(Clone, Copy, PartialEq, Eq, Debug)]
pub struct UnlockOutcome {
    pub droplets_to_burn: u64,
    pub interest_to_treasury: u64,
    pub released_nft_mint: Pubkey,
}

/// Unlocks a locker before expiry by repaying the loan.
///
/// Accepted exactly when the caller is the depositor, the locker has
/// not expired, the interest accrual fits in checked arithmetic, and
/// the caller's droplet balance covers principal plus accrued
/// interest.  Then exactly the principal is burned, exactly the
/// accrued interest goes to the treasury, the collateral NFT is
/// released, and the locker-count falls by one.
///
/// The caller passes the locker being closed; while it exists the
/// bucket counts at least one locker.
pub fn unlock_nft(
    bucket: &mut BucketStateV3,
    locker: &LockerState,
    signer: Pubkey,
    signer_droplet_balance: u64,
    now: u64,
) -> (r: Result<UnlockOutcome, SolventError>)
    requires
        old(bucket).num_nfts_in_lockers >= 1,
    ensures
        r is Ok <==> {
            &&& locker.depositor == signer
            &&& locker.creation_timestamp + locker.duration <= u64::MAX
            &&& now <= locker.creation_timestamp + locker.duration
            &&& accrual_fits(
                now as int,
                locker.creation_timestamp as int,
                locker.duration as int,
                locker.max_interest_payable as int,
            )
            &&& locker.principal_amount + accrued_interest(
                now as int,
                locker.creation_timestamp as int,
                locker.duration as int,
                locker.max_interest_payable as int,
            ) <= u64::MAX
            &&& signer_droplet_balance >= locker.principal_amount + accrued_interest(
                now as int,
                locker.creation_timestamp as int,
                locker.duration as int,
                locker.max_interest_payable as int,
            )
        },
        r matches Ok(o) ==> {
            &&& *final(bucket) == (BucketStateV3 {
                num_nfts_in_lockers: (old(bucket).num_nfts_in_lockers - 1) as u16,
                ..*old(bucket)
            })
            &&& o.droplets_to_burn == locker.principal_amount
            &&& o.interest_to_treasury == accrued_interest(
                now as int,
                locker.creation_timestamp as int,
                locker.duration as int,
                locker.max_interest_payable as int,
            )
            &&& o.released_nft_mint == locker.nft_mint
        },
        r matches Err(e) ==> {
            &&& *final(bucket) == *old(bucket)
            &&& if locker.depositor != signer {
                e == SolventError::LockerAccessUnauthorized
            } else if locker.creation_timestamp + locker.duration > u64::MAX {
                e == SolventError::ArithmeticOverflow
            } else if now > locker.creation_timestamp + locker.duration {
                e == SolventError::LockerExpired
            } else if !accrual_fits(
                now as int,
                locker.creation_timestamp as int,
                locker.duration as int,
                locker.max_interest_payable as int,
            ) {
                e == SolventError::ArithmeticOverflow
            } else if locker.principal_amount + accrued_interest(
                now as int,
                locker.creation_timestamp as int,
                locker.duration as int,
                locker.max_interest_payable as int,
            ) > u64::MAX {
                e == SolventError::ArithmeticOverflow
            } else {
                e == SolventError::DropletsInsufficient
            }
        },
{
    if locker.depositor != signer {
        return Err(SolventError::LockerAccessUnauthorized);
    }
    let deadline = match locker.creation_timestamp.checked_add(locker.duration) {
        Some(d) => d,
        None => {
            return Err(SolventError::ArithmeticOverflow);
        },
    };
    if now > deadline {
        return Err(SolventError::LockerExpired);
    }
    let interest = match accrue_interest(
        now,
        locker.creation_timestamp,
        locker.duration,
        locker.max_interest_payable,
    ) {
        Some(v) => v,
        None => {
            return Err(SolventError::ArithmeticOverflow);
        },
    };
    let owed = match locker.principal_amount.checked_add(interest) {
        Some(v) => v,
        None => {
            return Err(SolventError::ArithmeticOverflow);
        },
    };
    if signer_droplet_balance < owed {
        return Err(SolventError::DropletsInsufficient);
    }
    bucket.num_nfts_in_lockers = bucket.num_nfts_in_lockers - 1;
    Ok(
        UnlockOutcome {
            droplets_to_burn: locker.principal_amount,
            interest_to_treasury: interest,
            released_nft_mint: locker.nft_mint,
        },
    )
}

/// What a liquidation moves: the deficit split minted to the vault and
/// to the liquidator, and the deposit record re-admitting the NFT.
#[derive(Clone, Copy, PartialEq, Eq, Debug)]
pub struct LiquidateOutcome {
    pub droplets_to_vault: u64,
    pub droplets_to_liquidator: u64,
    pub deposit_state: DepositState,
}

/// Liquidates a defaulted locker.
///
/// Reachable exactly when the locker has expired (`now` strictly past
/// `creation_timestamp + duration`) and the held-count does not
/// overflow.  The deficit — the full value of one NFT minus the
/// outstanding principal — is minted and split exactly between the
/// vault and the liquidator's reward, the NFT is re-admitted as held,
/// and the counters move accordingly.
///
/// The caller passes the locker being liquidated; while it exists the
/// bucket counts at least one locker, and every locker the engine
/// creates is well formed.
pub fn liquidate_locker(
    bucket: &mut BucketStateV3,
    locker: &LockerState,
    now: u64,
    deposit_state_bump: u8,
) -> (r: Result<LiquidateOutcome, SolventError>)
    requires
        old(bucket).num_nfts_in_lockers >= 1,
        locker_wf(*locker),
    ensures
        r is Ok <==> {
            &&& locker.creation_timestamp + locker.duration <= u64::MAX
            &&& now > locker.creation_timestamp + locker.duration
            &&& old(bucket).num_nfts_in_bucket < u16::MAX
        },
        r matches Ok(o) ==> {
            &&& *final(bucket) == (BucketStateV3 {
                num_nfts_in_bucket: (old(bucket).num_nfts_in_bucket + 1) as u16,
                num_nfts_in_lockers: (old(bucket).num_nfts_in_lockers - 1) as u16,
                ..*old(bucket)
            })
            &&& o.droplets_to_liquidator == liquidation_reward(
                full_value() - locker.principal_amount,
                LIQUIDATION_REWARD_PERCENTAGE as int,
            )
            &&& o.droplets_to_liquidator + o.droplets_to_vault == full_value()
                - locker.principal_amount
            &&& o.deposit_state == (DepositState {
                bump: deposit_state_bump,
                droplet_mint: old(bucket).droplet_mint,
                nft_mint: locker.nft_mint,
            })
        },
        r matches Err(e) ==> {
            &&& *final(bucket) == *old(bucket)
            &&& if locker.creation_timestamp + locker.duration > u64::MAX {
                e == SolventError::ArithmeticOverflow
            } else if now <= locker.creation_timestamp + locker.duration {
                e == SolventError::LockerActive
            } else {
                e == SolventError::ArithmeticOverflow
            }
        },
{
    let deadline = match locker.creation_timestamp.checked_add(locker.duration) {
        Some(d) => d,
        None => {
            return Err(SolventError::ArithmeticOverflow);
        },
    };
    if now <= deadline {
        return Err(SolventError::LockerActive);
    }
    let new_bucket_count = match bucket.num_nfts_in_bucket.checked_add(1) {
        Some(v) => v,
        None => {
            return Err(SolventError::ArithmeticOverflow);
        },
    };
    let deficit_value = full_value_amount() - locker.principal_amount;
    let split = match split_liquidation(deficit_value, LIQUIDATION_REWARD_PERCENTAGE) {
        Some(s) => s,
        None => {
            // Unreachable: the reward on a deficit of at most one
            // NFT's value fits and never exceeds the deficit.
            proof {
                crate::fees::lemma_liquidation_reward_bounded(
                    deficit_value as int,
                    LIQUIDATION_REWARD_PERCENTAGE as int,
                );
                assert(false);
            }
            return Err(SolventError::ArithmeticOverflow);
        },
    };
    bucket.num_nfts_in_lockers = bucket.num_nfts_in_lockers - 1;
    bucket.num_nfts_in_bucket = new_bucket_count;
    Ok(
        LiquidateOutcome {
            droplets_to_vault: split.vault_amount,
            droplets_to_liquidator: split.liquidator_reward,
            deposit_state: DepositState {
                bump: deposit_state_bump,
                droplet_mint: bucket.droplet_mint,
                nft_mint: locker.nft_mint,
            },
        },
    )
}

} // verus!
