//! End-to-end scenarios across creation, decision, and refund.

use grape_collection_state::{
    approve, derive_address, initialize_config, initialize_listing_request, request_refund, Admin,
    ApprovalState, Config, ErrorCode, Identity, InitializeConfig, InitializeListingRequest,
    RecordAccount, Refund, Wallet,
};

fn id(n: u8) -> Identity {
    Identity { bytes: [n; 32] }
}

const PROGRAM: u8 = 9;
const CONFIG_ADDR: u8 = 10;
const ADMIN: u8 = 11;
const REQUESTOR: u8 = 12;
const COLLECTION: u8 = 13;
const AUTHORITY: u8 = 14;

#[test]
fn fee_capture_then_residual_refund() {
    // A configuration with a fee of 100 is created, a record referencing it
    // is created with its escrow pre-funded to 150, approval captures 100
    // for the administrator, and the refund returns the remaining 50.
    let mut cfg_ctx = InitializeConfig { admin_config: None, funder: id(1) };
    assert_eq!(initialize_config(&mut cfg_ctx, id(ADMIN), 100), Ok(()));
    let config = cfg_ctx.admin_config.unwrap();

    let (target, _) = derive_address(&id(PROGRAM), &id(CONFIG_ADDR), &id(COLLECTION)).unwrap();
    let mut create_ctx = InitializeListingRequest {
        collection_boarding_info_address: target,
        collection_boarding_info: None,
        listing_requestor: id(REQUESTOR),
        verified_collection_address: id(COLLECTION),
        update_authority: id(AUTHORITY),
        seed: id(COLLECTION),
        admin_config_address: id(CONFIG_ADDR),
        admin_config: Some(config),
        program_id: id(PROGRAM),
    };
    let created = initialize_listing_request(
        &mut create_ctx,
        "Degen Apes".to_string(),
        id(15),
        None,
        "https://example.org/meta".to_string(),
        "degen-apes".to_string(),
        "nft".to_string(),
        1,
    );
    assert_eq!(created, Ok(()));
    let info = create_ctx.collection_boarding_info.unwrap();
    assert_eq!(info.fee, 100);

    // The surrounding transfer mechanism pre-funded the escrow to 150.
    let mut decide_ctx = Admin {
        collection_boarding_info: RecordAccount { address: target, lamports: 150, info },
        admin: Wallet { address: id(ADMIN), lamports: 1_000 },
        admin_config_address: id(CONFIG_ADDR),
        admin_config: config,
        listing_requestor: Wallet { address: id(REQUESTOR), lamports: 500 },
    };
    assert_eq!(approve(&mut decide_ctx, true), Ok(()));
    assert_eq!(decide_ctx.admin.lamports, 1_100);
    assert_eq!(decide_ctx.collection_boarding_info.lamports, 50);
    assert_eq!(decide_ctx.collection_boarding_info.info.approval_state, ApprovalState::Approved);

    let mut refund_ctx = Refund {
        listing_requestor: decide_ctx.listing_requestor,
        collection_boarding_info: decide_ctx.collection_boarding_info,
    };
    assert_eq!(request_refund(&mut refund_ctx), Ok(()));
    assert_eq!(refund_ctx.listing_requestor.lamports, 550);
    assert_eq!(refund_ctx.collection_boarding_info.lamports, 0);
}

#[test]
fn a_second_approval_cannot_drain_the_escrow_twice() {
    // The escrow holds exactly the fee: the first approval empties it, and
    // the second fails loudly instead of silently moving funds again.
    let (target, _) = derive_address(&id(PROGRAM), &id(CONFIG_ADDR), &id(COLLECTION)).unwrap();
    let config = Config { admin: id(ADMIN), fee: 100 };
    let mut create_ctx = InitializeListingRequest {
        collection_boarding_info_address: target,
        collection_boarding_info: None,
        listing_requestor: id(REQUESTOR),
        verified_collection_address: id(COLLECTION),
        update_authority: id(AUTHORITY),
        seed: id(COLLECTION),
        admin_config_address: id(CONFIG_ADDR),
        admin_config: Some(config),
        program_id: id(PROGRAM),
    };
    let created = initialize_listing_request(
        &mut create_ctx,
        "Degen Apes".to_string(),
        id(15),
        None,
        "https://example.org/meta".to_string(),
        "degen-apes".to_string(),
        "nft".to_string(),
        1,
    );
    assert_eq!(created, Ok(()));

    let mut decide_ctx = Admin {
        collection_boarding_info: RecordAccount {
            address: target,
            lamports: 100,
            info: create_ctx.collection_boarding_info.unwrap(),
        },
        admin: Wallet { address: id(ADMIN), lamports: 1_000 },
        admin_config_address: id(CONFIG_ADDR),
        admin_config: config,
        listing_requestor: Wallet { address: id(REQUESTOR), lamports: 500 },
    };
    assert_eq!(approve(&mut decide_ctx, true), Ok(()));
    assert_eq!(decide_ctx.admin.lamports, 1_100);
    assert_eq!(decide_ctx.collection_boarding_info.lamports, 0);

    let again = approve(&mut decide_ctx, true);
    assert_eq!(again, Err(ErrorCode::InsufficientBalance));
    assert_eq!(decide_ctx.admin.lamports, 1_100);
    assert_eq!(decide_ctx.collection_boarding_info.lamports, 0);
    assert_eq!(decide_ctx.collection_boarding_info.info.approval_state, ApprovalState::Approved);
}
