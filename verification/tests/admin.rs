use solvent::admin::{
    claim_balance, distribute_revenue, set_locking_enabled, set_staking_enabled, start_migration,
    update_collection_info, update_locking_params, update_revenue_distribution_params,
    update_revenue_distribution_state,
};
use solvent::collection::CollectionInfo;
use solvent::errors::SolventError;
use solvent::fees::RevenuePartner;
use solvent::keys::Pubkey;
use solvent::migration::{migrate_droplets, migrate_nft};
use solvent::state::{BucketStateV3, SolventConfig};

fn admin_key(tag: u8) -> Pubkey {
    Pubkey([tag; 32])
}

fn config() -> SolventConfig {
    SolventConfig {
        admin: admin_key(0xad),
        core_treasury: admin_key(0xc1),
        lockers_treasury: admin_key(0xc2),
        migration_crank: admin_key(0xc3),
    }
}

fn admin_bucket() -> BucketStateV3 {
    solvent::bucket::create_bucket(
        admin_key(0xdd),
        CollectionInfo::V2 { collection_mint: admin_key(0xc0) },
        255,
    )
    .unwrap()
}

#[test]
fn test_update_locking_params() {
    let cfg = config();
    let mut bucket = admin_bucket();

    let err = update_locking_params(&mut bucket, &cfg, admin_key(1), Some(100), Some(50))
        .unwrap_err();
    assert_eq!(err, SolventError::AdminAccessUnauthorized);

    let err = update_locking_params(&mut bucket, &cfg, cfg.admin, Some(100), Some(101))
        .unwrap_err();
    assert_eq!(err, SolventError::InterestScalerInvalid);
    assert_eq!(bucket.max_locker_duration, 0);
    assert_eq!(bucket.interest_scaler, 0);

    update_locking_params(&mut bucket, &cfg, cfg.admin, Some(100), Some(50)).unwrap();
    assert_eq!(bucket.max_locker_duration, 100);
    assert_eq!(bucket.interest_scaler, 50);

    // Absent parameters leave the stored values untouched.
    update_locking_params(&mut bucket, &cfg, cfg.admin, None, None).unwrap();
    assert_eq!(bucket.max_locker_duration, 100);
    assert_eq!(bucket.interest_scaler, 50);
}

#[test]
fn test_feature_toggles_are_admin_only() {
    let cfg = config();
    let mut bucket = admin_bucket();

    assert_eq!(
        set_locking_enabled(&mut bucket, &cfg, admin_key(1), true).unwrap_err(),
        SolventError::AdminAccessUnauthorized
    );
    assert!(!bucket.is_locking_enabled);
    set_locking_enabled(&mut bucket, &cfg, cfg.admin, true).unwrap();
    assert!(bucket.is_locking_enabled);

    assert_eq!(
        set_staking_enabled(&mut bucket, &cfg, admin_key(1), true).unwrap_err(),
        SolventError::AdminAccessUnauthorized
    );
    set_staking_enabled(&mut bucket, &cfg, cfg.admin, true).unwrap();
    assert!(bucket.is_staking_enabled);
}

#[test]
fn test_update_collection_info() {
    let cfg = config();
    let mut bucket = admin_bucket();
    let new_info = CollectionInfo::V2 { collection_mint: admin_key(0xc9) };
    assert_eq!(
        update_collection_info(&mut bucket, &cfg, admin_key(1), new_info.clone()).unwrap_err(),
        SolventError::AdminAccessUnauthorized
    );
    update_collection_info(&mut bucket, &cfg, cfg.admin, new_info.clone()).unwrap();
    assert_eq!(bucket.collection_info, new_info);

    let bad = CollectionInfo::V1 {
        symbol: vec![],
        verified_creators: vec![],
        whitelist_root: [0u8; 32],
    };
    assert_eq!(
        update_collection_info(&mut bucket, &cfg, cfg.admin, bad).unwrap_err(),
        SolventError::VerifiedCreatorsInvalid
    );
    assert_eq!(bucket.collection_info, new_info);
}

fn partner(tag: u8, share_basis_points: u16) -> RevenuePartner {
    RevenuePartner { address: admin_key(tag), share_basis_points }
}

#[test]
fn test_revenue_table_must_sum_to_exactly_ten_thousand() {
    let cfg = config();
    let mint = admin_key(0xdd);

    let ok = vec![partner(1, 2500), partner(2, 7500)];
    let stored =
        update_revenue_distribution_params(&cfg, cfg.admin, mint, ok.clone(), 255).unwrap();
    assert_eq!(stored.revenue_partners, ok);

    // One short of a whole: rejected, never normalized.
    let short = vec![partner(1, 2500), partner(2, 7499)];
    assert_eq!(
        update_revenue_distribution_params(&cfg, cfg.admin, mint, short, 255).unwrap_err(),
        SolventError::RevenueDistributionParamsInvalid
    );

    // One past a whole: rejected too.
    let long = vec![partner(1, 2500), partner(2, 7501)];
    assert_eq!(
        update_revenue_distribution_params(&cfg, cfg.admin, mint, long, 255).unwrap_err(),
        SolventError::RevenueDistributionParamsInvalid
    );

    // An empty table sums to zero and is rejected.
    assert_eq!(
        update_revenue_distribution_params(&cfg, cfg.admin, mint, vec![], 255).unwrap_err(),
        SolventError::RevenueDistributionParamsInvalid
    );

    // The same rule holds for the distribution-state record.
    let stored = update_revenue_distribution_state(
        &cfg,
        cfg.admin,
        mint,
        vec![partner(3, 10000)],
        255,
    )
    .unwrap();
    assert_eq!(stored.revenue_partners.len(), 1);
    assert_eq!(
        update_revenue_distribution_state(&cfg, cfg.admin, mint, vec![partner(3, 9999)], 255)
            .unwrap_err(),
        SolventError::RevenueDistributionParamsInvalid
    );

    assert_eq!(
        update_revenue_distribution_params(&cfg, admin_key(9), mint, vec![partner(3, 10000)], 255)
            .unwrap_err(),
        SolventError::AdminAccessUnauthorized
    );
}

#[test]
fn test_distribute_revenue_pays_each_partner_its_cut() {
    let cfg = config();
    let mint = admin_key(0xdd);
    let table = vec![partner(1, 2500), partner(2, 7500)];
    let params = update_revenue_distribution_params(&cfg, cfg.admin, mint, table, 255).unwrap();

    // 1,000,890 balance with 890 of rent leaves 1,000,000 to share.
    let destinations = vec![admin_key(1), admin_key(2)];
    let shares =
        distribute_revenue(&cfg, cfg.admin, &params, 1_000_890, 890, &destinations).unwrap();
    assert_eq!(shares.len(), 2);
    assert_eq!(shares[0].address, admin_key(1));
    assert_eq!(shares[0].amount, 250_000);
    assert_eq!(shares[1].address, admin_key(2));
    assert_eq!(shares[1].amount, 750_000);

    // A partner without a supplied destination fails the whole payout.
    let missing = vec![admin_key(1)];
    assert_eq!(
        distribute_revenue(&cfg, cfg.admin, &params, 1_000_890, 890, &missing).unwrap_err(),
        SolventError::RevenueDistributionParamsInvalid
    );

    // Only the administrator may distribute.
    assert_eq!(
        distribute_revenue(&cfg, admin_key(9), &params, 1_000_890, 890, &destinations)
            .unwrap_err(),
        SolventError::AdminAccessUnauthorized
    );

    // A balance large enough to overflow a partner's product aborts.
    assert_eq!(
        distribute_revenue(&cfg, cfg.admin, &params, u64::MAX, 0, &destinations).unwrap_err(),
        SolventError::ArithmeticOverflow
    );
}

#[test]
fn test_claim_balance_leaves_rent_behind() {
    assert_eq!(claim_balance(5_000_000, 890_880), 4_109_120);
    assert_eq!(claim_balance(890_880, 890_880), 0);
}

#[test]
fn test_start_migration_is_admin_only() {
    let cfg = config();
    let old_mint = admin_key(0x01);
    let new_mint = admin_key(0x02);
    let state = start_migration(&cfg, cfg.admin, old_mint, new_mint, 255).unwrap();
    assert_eq!(state.droplet_mint_old, old_mint);
    assert_eq!(state.droplet_mint_new, new_mint);
    assert_eq!(
        start_migration(&cfg, admin_key(9), old_mint, new_mint, 255).unwrap_err(),
        SolventError::AdminAccessUnauthorized
    );
}

#[test]
fn test_migrate_droplets_is_one_for_one() {
    let cfg = config();
    let outcome = migrate_droplets(&cfg, cfg.migration_crank, 123_456_789).unwrap();
    assert_eq!(outcome.droplets_to_crank, 123_456_789);
    assert_eq!(outcome.droplets_to_mint, 123_456_789);
    assert_eq!(
        migrate_droplets(&cfg, admin_key(9), 1).unwrap_err(),
        SolventError::SolventMigrationCrankInvalid
    );
}

#[test]
fn test_migrate_nft_counts_without_minting() {
    let cfg = config();
    let mut bucket = admin_bucket();
    let nft = admin_key(0x11);
    let metadata = solvent::collection::NftMetadata {
        mint: nft,
        symbol: vec![],
        creators: None,
        collection: Some(solvent::collection::NftCollection {
            verified: true,
            key: admin_key(0xc0),
        }),
    };
    assert_eq!(
        migrate_nft(&mut bucket, &cfg, admin_key(9), nft, &metadata, None, 254).unwrap_err(),
        SolventError::AdminAccessUnauthorized
    );
    let deposit = migrate_nft(&mut bucket, &cfg, cfg.migration_crank, nft, &metadata, None, 254)
        .unwrap();
    assert_eq!(bucket.num_nfts_in_bucket, 1);
    assert_eq!(deposit.nft_mint, nft);
}
