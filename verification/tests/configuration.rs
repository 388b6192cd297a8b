//! Configuration lifecycle: creation, administrator succession, and fee
//! changes, with the fee charged on decisions being the live one.

use grape_collection_state::{
    approve, initialize_config, set_fee, update_config, Admin, ApprovalState,
    CollectionListingRequest, Config, ErrorCode, Identity, InitializeConfig, RecordAccount,
    UpdateConfig, Wallet,
};

fn id(n: u8) -> Identity {
    Identity { bytes: [n; 32] }
}

fn record(fee: u64) -> CollectionListingRequest {
    CollectionListingRequest {
        verified_collection_address: id(13),
        collection_update_authority: id(14),
        approval_state: ApprovalState::Pending,
        enable: true,
        request_type: 0,
        auction_house: id(15),
        governance: Identity { bytes: [0; 32] },
        admin_config: id(10),
        listing_requestor: id(12),
        fee,
        name: "Degen Apes".to_string(),
        vanity_url: "degen-apes".to_string(),
        token_type: "nft".to_string(),
        meta_data_url: "https://example.org/meta".to_string(),
        bump: 254,
    }
}

#[test]
fn a_configuration_is_created_once() {
    let mut ctx = InitializeConfig { admin_config: None, funder: id(1) };
    let r = initialize_config(&mut ctx, id(11), 100);
    assert_eq!(r, Ok(()));
    let cfg = ctx.admin_config.unwrap();
    assert_eq!(cfg.admin, id(11));
    assert_eq!(cfg.fee, 100);
}

#[test]
fn a_second_configuration_at_the_same_address_fails() {
    let mut ctx = InitializeConfig {
        admin_config: Some(Config { admin: id(11), fee: 100 }),
        funder: id(1),
    };
    let r = initialize_config(&mut ctx, id(77), 5);
    assert_eq!(r, Err(ErrorCode::AlreadyExists));
    let cfg = ctx.admin_config.unwrap();
    assert_eq!(cfg.admin, id(11));
    assert_eq!(cfg.fee, 100);
}

#[test]
fn the_administrator_hands_over_administration() {
    let mut ctx = UpdateConfig { admin_config: Config { admin: id(11), fee: 100 }, admin: id(11) };
    let r = update_config(&mut ctx, id(21));
    assert_eq!(r, Ok(()));
    assert_eq!(ctx.admin_config.admin, id(21));
    assert_eq!(ctx.admin_config.fee, 100);
}

#[test]
fn handing_administration_to_oneself_is_a_harmless_no_op() {
    let mut ctx = UpdateConfig { admin_config: Config { admin: id(11), fee: 100 }, admin: id(11) };
    let r = update_config(&mut ctx, id(11));
    assert_eq!(r, Ok(()));
    assert_eq!(ctx.admin_config.admin, id(11));
    assert_eq!(ctx.admin_config.fee, 100);
}

#[test]
fn nobody_else_hands_over_administration() {
    let mut ctx = UpdateConfig { admin_config: Config { admin: id(11), fee: 100 }, admin: id(77) };
    let r = update_config(&mut ctx, id(77));
    assert_eq!(r, Err(ErrorCode::Unauthorized));
    assert_eq!(ctx.admin_config.admin, id(11));
}

#[test]
fn the_administrator_sets_the_fee() {
    let mut ctx = UpdateConfig { admin_config: Config { admin: id(11), fee: 100 }, admin: id(11) };
    let r = set_fee(&mut ctx, 30);
    assert_eq!(r, Ok(()));
    assert_eq!(ctx.admin_config.fee, 30);
    assert_eq!(ctx.admin_config.admin, id(11));
}

#[test]
fn nobody_else_sets_the_fee() {
    let mut ctx = UpdateConfig { admin_config: Config { admin: id(11), fee: 100 }, admin: id(77) };
    let r = set_fee(&mut ctx, 0);
    assert_eq!(r, Err(ErrorCode::Unauthorized));
    assert_eq!(ctx.admin_config.fee, 100);
}

#[test]
fn a_decision_charges_the_live_fee_not_the_snapshot() {
    // The record snapshotted a fee of 100, but the configuration's fee was
    // lowered to 30 before the decision: 30 moves, and the snapshot stays.
    let mut cfg_ctx =
        UpdateConfig { admin_config: Config { admin: id(11), fee: 100 }, admin: id(11) };
    assert_eq!(set_fee(&mut cfg_ctx, 30), Ok(()));
    let mut ctx = Admin {
        collection_boarding_info: RecordAccount { address: id(42), lamports: 150, info: record(100) },
        admin: Wallet { address: id(11), lamports: 1_000 },
        admin_config_address: id(10),
        admin_config: cfg_ctx.admin_config,
        listing_requestor: Wallet { address: id(12), lamports: 500 },
    };
    let r = approve(&mut ctx, true);
    assert_eq!(r, Ok(()));
    assert_eq!(ctx.admin.lamports, 1_030);
    assert_eq!(ctx.collection_boarding_info.lamports, 120);
    assert_eq!(ctx.collection_boarding_info.info.fee, 100);
}
