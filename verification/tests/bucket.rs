use solvent::bucket::{
    create_bucket, deposit_nft, deposit_nft_for_swap, liquidate_locker, lock_nft, redeem_nft,
    swap_nfts, unlock_nft,
};
use solvent::collection::{CollectionInfo, NftCollection, NftMetadata};
use solvent::errors::SolventError;
use solvent::keys::Pubkey;
use solvent::state::{BucketStateV3, DepositState, LockerState, SwapState};

const FULL_VALUE: u64 = 10_000_000_000;

fn bucket_key(tag: u8) -> Pubkey {
    Pubkey([tag; 32])
}

fn collection_mint() -> Pubkey {
    bucket_key(0xc0)
}

fn member_metadata(mint: Pubkey) -> NftMetadata {
    NftMetadata {
        mint,
        symbol: vec![],
        creators: None,
        collection: Some(NftCollection { verified: true, key: collection_mint() }),
    }
}

fn stranger_metadata(mint: Pubkey) -> NftMetadata {
    NftMetadata {
        mint,
        symbol: vec![],
        creators: None,
        collection: Some(NftCollection { verified: true, key: bucket_key(0xbb) }),
    }
}

fn test_bucket() -> BucketStateV3 {
    create_bucket(
        bucket_key(0xdd),
        CollectionInfo::V2 { collection_mint: collection_mint() },
        255,
    )
    .unwrap()
}

#[test]
fn test_create_bucket_starts_empty_and_disabled() {
    let bucket = test_bucket();
    assert_eq!(bucket.num_nfts_in_bucket, 0);
    assert_eq!(bucket.num_nfts_in_lockers, 0);
    assert!(!bucket.is_locking_enabled);
    assert!(!bucket.is_staking_enabled);
    assert_eq!(bucket.max_locker_duration, 0);
    assert_eq!(bucket.interest_scaler, 0);
    assert_eq!(bucket.staking_params, None);
}

#[test]
fn test_create_bucket_rejects_invalid_collection_info() {
    let info = CollectionInfo::V1 {
        symbol: vec![b'x'; 33],
        verified_creators: vec![bucket_key(1)],
        whitelist_root: [0u8; 32],
    };
    assert_eq!(
        create_bucket(bucket_key(0xdd), info, 255).unwrap_err(),
        SolventError::CollectionSymbolInvalid
    );
}

#[test]
fn test_deposit_mints_full_value_and_counts() {
    let mut bucket = test_bucket();
    let nft = bucket_key(1);
    let outcome = deposit_nft(&mut bucket, nft, &member_metadata(nft), None, 254).unwrap();
    assert_eq!(bucket.num_nfts_in_bucket, 1);
    assert_eq!(bucket.num_nfts_in_lockers, 0);
    assert_eq!(outcome.droplets_to_user, FULL_VALUE);
    assert_eq!(
        outcome.deposit_state,
        DepositState { bump: 254, droplet_mint: bucket.droplet_mint, nft_mint: nft }
    );
}

#[test]
fn test_deposit_rejects_foreign_nft_untouched() {
    let mut bucket = test_bucket();
    let nft = bucket_key(1);
    let err = deposit_nft(&mut bucket, nft, &stranger_metadata(nft), None, 254).unwrap_err();
    assert_eq!(err, SolventError::CollectionVerificationFailed);
    assert_eq!(bucket.num_nfts_in_bucket, 0);
}

#[test]
fn test_deposit_for_swap_splits_mint_exactly() {
    let mut bucket = test_bucket();
    let nft = bucket_key(1);
    let signer = bucket_key(2);
    let outcome =
        deposit_nft_for_swap(&mut bucket, signer, nft, &member_metadata(nft), None, 254, 253)
            .unwrap();
    assert_eq!(bucket.num_nfts_in_bucket, 1);
    // Swap fee is 50 basis points of the full value.
    assert_eq!(outcome.droplets_to_treasury, 50_000_000);
    assert_eq!(outcome.droplets_to_user, FULL_VALUE - 50_000_000);
    assert_eq!(outcome.droplets_to_user + outcome.droplets_to_treasury, FULL_VALUE);
    assert_eq!(outcome.swap_state, SwapState { bump: 253, signer, flag: true });
}

#[test]
fn test_redeem_burns_full_value_and_splits_fee() {
    let mut bucket = test_bucket();
    let nft = bucket_key(1);
    let signer = bucket_key(2);
    let deposit = deposit_nft(&mut bucket, nft, &member_metadata(nft), None, 254).unwrap();
    let mut swap_state = SwapState { bump: 0, signer, flag: false };
    let outcome =
        redeem_nft(&mut bucket, &deposit.deposit_state, &mut swap_state, signer, false, 252)
            .unwrap();
    assert_eq!(bucket.num_nfts_in_bucket, 0);
    assert_eq!(outcome.droplets_to_burn, FULL_VALUE);
    // Redeem fee is 200 basis points; the distributor takes 1000 basis
    // points of the fee and the treasury the exact remainder.
    assert_eq!(outcome.total_fee, 200_000_000);
    assert_eq!(outcome.fee_to_distributor, 20_000_000);
    assert_eq!(outcome.fee_to_treasury, 180_000_000);
    assert_eq!(outcome.fee_to_distributor + outcome.fee_to_treasury, outcome.total_fee);
    assert_eq!(outcome.released_nft_mint, nft);
}

#[test]
fn test_swap_redemption_consumes_eligibility() {
    let mut bucket = test_bucket();
    let signer = bucket_key(2);
    let nft_a = bucket_key(1);
    let first = deposit_nft_for_swap(
        &mut bucket,
        signer,
        nft_a,
        &member_metadata(nft_a),
        None,
        254,
        253,
    )
    .unwrap();
    let mut swap_state = first.swap_state;
    assert!(swap_state.flag);

    let outcome =
        redeem_nft(&mut bucket, &first.deposit_state, &mut swap_state, signer, true, 253)
            .unwrap();
    // A swap redemption burns nothing and charges only the swap fee.
    assert_eq!(outcome.droplets_to_burn, 0);
    assert_eq!(outcome.total_fee, 50_000_000);
    assert_eq!(outcome.fee_to_distributor, 5_000_000);
    assert_eq!(outcome.fee_to_treasury, 45_000_000);
    // The eligibility is consumed: exactly one discounted redemption.
    assert!(!swap_state.flag);
    assert_eq!(bucket.num_nfts_in_bucket, 0);
}

#[test]
fn test_swap_redemption_requires_eligibility() {
    let mut bucket = test_bucket();
    let nft = bucket_key(1);
    let signer = bucket_key(2);
    let deposit = deposit_nft(&mut bucket, nft, &member_metadata(nft), None, 254).unwrap();
    let mut swap_state = SwapState { bump: 0, signer, flag: false };
    let err = redeem_nft(&mut bucket, &deposit.deposit_state, &mut swap_state, signer, true, 252)
        .unwrap_err();
    assert_eq!(err, SolventError::SwapNotAllowed);
    // Nothing moved.
    assert_eq!(bucket.num_nfts_in_bucket, 1);
    assert!(!swap_state.flag);
}

#[test]
fn test_swap_nfts_keeps_counts_and_charges_swap_fee() {
    let mut bucket = test_bucket();
    let nft_a = bucket_key(1);
    let nft_b = bucket_key(3);
    let deposit = deposit_nft(&mut bucket, nft_a, &member_metadata(nft_a), None, 254).unwrap();
    let held_before = bucket.num_nfts_in_bucket;

    let outcome = swap_nfts(
        &bucket,
        &deposit.deposit_state,
        nft_b,
        &member_metadata(nft_b),
        None,
        251,
    )
    .unwrap();
    assert_eq!(bucket.num_nfts_in_bucket, held_before);
    assert_eq!(outcome.fee_to_revenue_distribution, 50_000_000);
    assert_eq!(outcome.released_nft_mint, nft_a);
    assert_eq!(outcome.deposit_state_for_deposit.nft_mint, nft_b);

    let err = swap_nfts(
        &bucket,
        &deposit.deposit_state,
        nft_b,
        &stranger_metadata(nft_b),
        None,
        251,
    )
    .unwrap_err();
    assert_eq!(err, SolventError::CollectionVerificationFailed);
}

fn locking_bucket() -> BucketStateV3 {
    let mut bucket = test_bucket();
    bucket.is_locking_enabled = true;
    bucket.max_locker_duration = 100;
    bucket.interest_scaler = 100;
    bucket
}

#[test]
fn test_lock_quotes_on_post_increment_counters() {
    let mut bucket = locking_bucket();
    bucket.num_nfts_in_bucket = 10;
    bucket.num_nfts_in_lockers = 4;
    let nft = bucket_key(1);
    let signer = bucket_key(2);

    let outcome = lock_nft(
        &mut bucket,
        signer,
        nft,
        &member_metadata(nft),
        None,
        5000,
        10,
        250,
    )
    .unwrap();
    // The quote counts this NFT among the lockers: 10 held, 5 locked.
    assert_eq!(bucket.num_nfts_in_lockers, 5);
    assert_eq!(outcome.loan.principal_amount, 9_666_666_666);
    assert_eq!(outcome.loan.max_interest_payable, 333_333_334);
    assert_eq!(outcome.locker_state.depositor, signer);
    assert_eq!(outcome.locker_state.nft_mint, nft);
    assert_eq!(outcome.locker_state.creation_timestamp, 5000);
    assert_eq!(outcome.locker_state.duration, 10);
    assert_eq!(outcome.locker_state.principal_amount, 9_666_666_666);
    assert_eq!(outcome.locker_state.max_interest_payable, 333_333_334);
}

#[test]
fn test_lock_rejections() {
    let nft = bucket_key(1);
    let signer = bucket_key(2);

    let mut disabled = locking_bucket();
    disabled.is_locking_enabled = false;
    disabled.num_nfts_in_bucket = 1;
    let err = lock_nft(&mut disabled, signer, nft, &member_metadata(nft), None, 0, 10, 250)
        .unwrap_err();
    assert_eq!(err, SolventError::LockersDisabled);

    let mut empty = locking_bucket();
    let err =
        lock_nft(&mut empty, signer, nft, &member_metadata(nft), None, 0, 10, 250).unwrap_err();
    assert_eq!(err, SolventError::BucketEmpty);
    assert_eq!(empty.num_nfts_in_lockers, 0);

    let mut bucket = locking_bucket();
    bucket.num_nfts_in_bucket = 1;
    let err = lock_nft(&mut bucket, signer, nft, &member_metadata(nft), None, 0, 101, 250)
        .unwrap_err();
    assert_eq!(err, SolventError::LockerDurationInvalid);

    let err = lock_nft(&mut bucket, signer, nft, &stranger_metadata(nft), None, 0, 10, 250)
        .unwrap_err();
    assert_eq!(err, SolventError::CollectionVerificationFailed);
}

#[test]
fn test_lock_aborts_on_overflowing_quote() {
    // A maximum duration near 2^64 overflows the quote's denominator:
    // the whole lock aborts and the counters stay untouched.
    let mut bucket = locking_bucket();
    bucket.max_locker_duration = u64::MAX;
    bucket.num_nfts_in_bucket = 10;
    bucket.num_nfts_in_lockers = 4;
    let nft = bucket_key(1);
    let err = lock_nft(
        &mut bucket,
        bucket_key(2),
        nft,
        &member_metadata(nft),
        None,
        0,
        10,
        250,
    )
    .unwrap_err();
    assert_eq!(err, SolventError::ArithmeticOverflow);
    assert_eq!(bucket.num_nfts_in_lockers, 4);
}

#[test]
fn test_lock_unlock_round_trip_before_expiry() {
    let mut bucket = locking_bucket();
    bucket.num_nfts_in_bucket = 10;
    bucket.num_nfts_in_lockers = 4;
    let nft = bucket_key(1);
    let signer = bucket_key(2);
    let outcome = lock_nft(
        &mut bucket,
        signer,
        nft,
        &member_metadata(nft),
        None,
        5000,
        10,
        250,
    )
    .unwrap();
    let locker = outcome.locker_state;

    // Half way through, the accrued interest is half the maximum.
    let unlock = unlock_nft(&mut bucket, &locker, signer, u64::MAX, 5005).unwrap();
    assert_eq!(unlock.droplets_to_burn, locker.principal_amount);
    assert_eq!(unlock.interest_to_treasury, 166_666_667);
    assert_eq!(unlock.released_nft_mint, nft);
    assert_eq!(bucket.num_nfts_in_lockers, 4);
}

#[test]
fn test_unlock_interest_is_monotonic_and_exact_at_expiry() {
    let mut bucket = locking_bucket();
    bucket.num_nfts_in_bucket = 10;
    bucket.num_nfts_in_lockers = 4;
    let nft = bucket_key(1);
    let signer = bucket_key(2);
    let locker = lock_nft(
        &mut bucket,
        signer,
        nft,
        &member_metadata(nft),
        None,
        5000,
        10,
        250,
    )
    .unwrap()
    .locker_state;

    let mut previous = 0u64;
    for t in 5000..=5010u64 {
        let mut scratch = bucket.clone();
        let unlock = unlock_nft(&mut scratch, &locker, signer, u64::MAX, t).unwrap();
        assert!(unlock.interest_to_treasury >= previous);
        previous = unlock.interest_to_treasury;
    }
    // At the exact expiry the interest equals the quoted maximum.
    assert_eq!(previous, locker.max_interest_payable);
}

#[test]
fn test_unlock_rejections() {
    let mut bucket = locking_bucket();
    bucket.num_nfts_in_bucket = 10;
    bucket.num_nfts_in_lockers = 4;
    let nft = bucket_key(1);
    let signer = bucket_key(2);
    let locker = lock_nft(
        &mut bucket,
        signer,
        nft,
        &member_metadata(nft),
        None,
        5000,
        10,
        250,
    )
    .unwrap()
    .locker_state;

    // Only the depositor may unlock.
    let err = unlock_nft(&mut bucket, &locker, bucket_key(9), u64::MAX, 5005).unwrap_err();
    assert_eq!(err, SolventError::LockerAccessUnauthorized);

    // Past expiry the locker cannot be unlocked.
    let err = unlock_nft(&mut bucket, &locker, signer, u64::MAX, 5011).unwrap_err();
    assert_eq!(err, SolventError::LockerExpired);

    // The borrower must hold principal plus accrued interest.
    let owed = locker.principal_amount + 166_666_667;
    let err = unlock_nft(&mut bucket, &locker, signer, owed - 1, 5005).unwrap_err();
    assert_eq!(err, SolventError::DropletsInsufficient);
    assert_eq!(bucket.num_nfts_in_lockers, 5);

    let unlock = unlock_nft(&mut bucket, &locker, signer, owed, 5005).unwrap();
    assert_eq!(unlock.droplets_to_burn, locker.principal_amount);
    assert_eq!(bucket.num_nfts_in_lockers, 4);
}

#[test]
fn test_unlock_and_liquidation_abort_on_deadline_overflow() {
    let mut bucket = locking_bucket();
    bucket.num_nfts_in_bucket = 1;
    bucket.num_nfts_in_lockers = 1;
    let signer = bucket_key(2);
    // A deadline past 2^64 aborts instead of wrapping around.
    let locker = LockerState {
        bump: 250,
        droplet_mint: bucket.droplet_mint,
        depositor: signer,
        nft_mint: bucket_key(1),
        creation_timestamp: u64::MAX - 5,
        duration: 10,
        principal_amount: 9_000_000_000,
        max_interest_payable: 1_000_000_000,
    };
    assert_eq!(
        unlock_nft(&mut bucket, &locker, signer, u64::MAX, u64::MAX).unwrap_err(),
        SolventError::ArithmeticOverflow
    );
    assert_eq!(
        liquidate_locker(&mut bucket, &locker, u64::MAX, 249).unwrap_err(),
        SolventError::ArithmeticOverflow
    );
    assert_eq!(bucket.num_nfts_in_lockers, 1);
    assert_eq!(bucket.num_nfts_in_bucket, 1);
}

#[test]
fn test_liquidation_only_after_expiry_and_splits_deficit_exactly() {
    let mut bucket = locking_bucket();
    bucket.num_nfts_in_bucket = 10;
    bucket.num_nfts_in_lockers = 4;
    let nft = bucket_key(1);
    let locker = lock_nft(
        &mut bucket,
        bucket_key(2),
        nft,
        &member_metadata(nft),
        None,
        5000,
        10,
        250,
    )
    .unwrap()
    .locker_state;

    // At the exact deadline the locker is still active.
    let err = liquidate_locker(&mut bucket, &locker, 5010, 249).unwrap_err();
    assert_eq!(err, SolventError::LockerActive);
    assert_eq!(bucket.num_nfts_in_lockers, 5);

    let outcome = liquidate_locker(&mut bucket, &locker, 5011, 249).unwrap();
    let deficit = FULL_VALUE - locker.principal_amount;
    assert_eq!(
        outcome.droplets_to_liquidator + outcome.droplets_to_vault,
        deficit
    );
    // The liquidator's reward is 20 percent of a full NFT's scale.
    assert_eq!(outcome.droplets_to_liquidator, deficit * 20 / 100);
    assert_eq!(bucket.num_nfts_in_lockers, 4);
    assert_eq!(bucket.num_nfts_in_bucket, 11);
    assert_eq!(outcome.deposit_state.nft_mint, nft);
}
