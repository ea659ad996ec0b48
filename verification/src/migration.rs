//! The legacy token migration: moving balances and held NFTs from an
//! old droplet mint to its replacement.

use crate::collection::{collection_verified, verify_collection, NftMetadata};
use crate::errors::SolventError;
use crate::keys::Pubkey;
use crate::state::{BucketStateV3, DepositState, SolventConfig};
use vstd::prelude::*;

verus! {

/// What a droplet migration moves: the old droplets handed to the
/// migration crank, and the same amount of new droplets minted back.
#[derive(Clone, Copy, PartialEq, Eq, Structural, Debug)]
pub struct MigrateDropletsOutcome {
    pub droplets_to_crank: u64,
    pub droplets_to_mint: u64,
}

/// Exchanges the caller's whole old-droplet balance one-for-one for
/// new droplets; the crank account presented must be the configured
/// one.
pub fn migrate_droplets(
    config: &SolventConfig,
    migration_crank: Pubkey,
    signer_droplet_balance_old: u64,
) -> (r: Result<MigrateDropletsOutcome, SolventError>)
    ensures
        r is Ok <==> migration_crank == config.migration_crank,
        r matches Ok(o) ==> o.droplets_to_crank == signer_droplet_balance_old
            && o.droplets_to_mint == signer_droplet_balance_old,
        r matches Err(e) ==> e == SolventError::SolventMigrationCrankInvalid,
{
    if !(migration_crank == config.migration_crank) {
        return Err(SolventError::SolventMigrationCrankInvalid);
    }
    Ok(
        MigrateDropletsOutcome {
            droplets_to_crank: signer_droplet_balance_old,
            droplets_to_mint: signer_droplet_balance_old,
        },
    )
}

/// Re-deposits an NFT from the old pool into the new bucket, run by
/// the migration crank.  The NFT is verified against the collection
/// and counted as held, but no droplets are minted: its backing
/// droplets already exist on the old mint.
pub fn migrate_nft(
    bucket: &mut BucketStateV3,
    config: &SolventConfig,
    signer: Pubkey,
    nft_mint: Pubkey,
    metadata: &NftMetadata,
    whitelist_proof: Option<Vec<[u8; 32]>>,
    deposit_state_bump: u8,
) -> (r: Result<DepositState, SolventError>)
    ensures
        r is Ok <==> signer == config.migration_crank && collection_verified(
            *metadata,
            old(bucket).collection_info,
            whitelist_proof,
        ) && old(bucket).num_nfts_in_bucket < u16::MAX,
        r matches Ok(d) ==> {
            &&& *final(bucket) == (BucketStateV3 {
                num_nfts_in_bucket: (old(bucket).num_nfts_in_bucket + 1) as u16,
                ..*old(bucket)
            })
            &&& d == (DepositState {
                bump: deposit_state_bump,
                droplet_mint: old(bucket).droplet_mint,
                nft_mint,
            })
        },
        r matches Err(e) ==> {
            &&& *final(bucket) == *old(bucket)
            &&& if signer != config.migration_crank {
                e == SolventError::AdminAccessUnauthorized
            } else if !collection_verified(
                *metadata,
                old(bucket).collection_info,
                whitelist_proof,
            ) {
                e == SolventError::CollectionVerificationFailed
            } else {
                e == SolventError::ArithmeticOverflow
            }
        },
{
    if !(signer == config.migration_crank) {
        return Err(SolventError::AdminAccessUnauthorized);
    }
    if !verify_collection(metadata, &bucket.collection_info, whitelist_proof) {
        return Err(SolventError::CollectionVerificationFailed);
    }
    let new_count = match bucket.num_nfts_in_bucket.checked_add(1) {
        Some(v) => v,
        None => {
            return Err(SolventError::ArithmeticOverflow);
        },
    };
    bucket.num_nfts_in_bucket = new_count;
    Ok(DepositState { bump: deposit_state_bump, droplet_mint: bucket.droplet_mint, nft_mint })
}

} // verus!
