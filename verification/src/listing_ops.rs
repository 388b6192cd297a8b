//! Lifecycle of a listing request record: creation at its derived address,
//! the administrator's decision and toggle, metadata edits, and the
//! requestor's refund. Every operation validates its whole account bundle
//! before it changes anything, so a rejected call leaves every account
//! exactly as it was.

use vstd::prelude::*;
use crate::addressing::{derive_address, derive_of};
use crate::contexts::{Admin, InitializeListingRequest, MetaDataMod, Refund};
use crate::errors::ErrorCode;
use crate::identity::{lemma_identity_view_injective, spec_zeroed, Identity};
use crate::state::{ApprovalState, CollectionListingRequest, RecordAccount, Wallet};

verus! {

// --- Validation of the administrator's account bundle ---

/// Whether the caller of an administrator operation is the administrator of
/// the supplied configuration.
pub open spec fn admin_authorized(c: Admin) -> bool {
    c.admin.address == c.admin_config.admin
}

/// Whether the record names the supplied configuration as its governing
/// configuration.
pub open spec fn admin_record_governed(c: Admin) -> bool {
    c.collection_boarding_info.info.admin_config == c.admin_config_address
}

/// Whether the supplied requestor account stands at the address the record
/// names as its requestor.
pub open spec fn admin_requestor_matches(c: Admin) -> bool {
    c.listing_requestor.address == c.collection_boarding_info.info.listing_requestor
}

/// The first failure an administrator operation reports for its account
/// bundle, or `None` when the bundle is sound.
pub open spec fn admin_ctx_error(c: Admin) -> Option<ErrorCode> {
    if !admin_authorized(c) {
        Some(ErrorCode::Unauthorized)
    } else if !admin_record_governed(c) {
        Some(ErrorCode::InvalidCrossReference)
    } else if !admin_requestor_matches(c) {
        Some(ErrorCode::AddressMismatch)
    } else {
        None
    }
}

/// Checks the administrator account bundle: the caller must be the
/// configuration's administrator, the record must be governed by that
/// configuration, and the requestor account must stand at the record's
/// requestor address.
fn check_admin_ctx(ctx: &Admin) -> (r: Option<ErrorCode>)
    ensures
        r == admin_ctx_error(*ctx),
{
    if !(ctx.admin.address == ctx.admin_config.admin) {
        Some(ErrorCode::Unauthorized)
    } else if !(ctx.collection_boarding_info.info.admin_config == ctx.admin_config_address) {
        Some(ErrorCode::InvalidCrossReference)
    } else if !(ctx.listing_requestor.address == ctx.collection_boarding_info.info.listing_requestor) {
        Some(ErrorCode::AddressMismatch)
    } else {
        None
    }
}

// --- Creation ---

/// Whether the caller-supplied seed is one of the record's identifying
/// inputs: the collection identifier or its update authority.
pub open spec fn seed_valid(c: InitializeListingRequest) -> bool {
    c.seed == c.update_authority || c.seed == c.verified_collection_address
}

/// Whether address derivation succeeds for the bundle's inputs and yields
/// exactly the caller-supplied target address.
pub open spec fn target_address_derived(c: InitializeListingRequest) -> bool {
    match derive_of(c.program_id@, c.admin_config_address@, c.seed@) {
        Some(p) => p.0 == c.collection_boarding_info_address@,
        None => false,
    }
}

/// The record that creation stores: `Pending`, enabled, fee snapshotted
/// from the governing configuration, requestor and back-reference bound,
/// and the derivation bump recorded.
pub open spec fn created_record(
    c: InitializeListingRequest,
    fee: u64,
    bump: u8,
    name: String,
    auction_house: Identity,
    governance: Option<Identity>,
    meta_data_url: String,
    vanity_url: String,
    token_type: String,
    request_type: u8,
) -> CollectionListingRequest {
    CollectionListingRequest {
        verified_collection_address: c.verified_collection_address,
        collection_update_authority: c.update_authority,
        approval_state: ApprovalState::Pending,
        enable: true,
        request_type,
        auction_house,
        governance: match governance {
            Some(g) => g,
            None => spec_zeroed(),
        },
        admin_config: c.admin_config_address,
        listing_requestor: c.listing_requestor,
        fee,
        name,
        vanity_url,
        token_type,
        meta_data_url,
        bump,
    }
}

/// The outcome of `initialize_listing_request`: the state it leaves behind
/// and the reported result.
pub open spec fn spec_initialize_listing_request(
    c: InitializeListingRequest,
    name: String,
    auction_house: Identity,
    governance: Option<Identity>,
    meta_data_url: String,
    vanity_url: String,
    token_type: String,
    request_type: u8,
) -> (InitializeListingRequest, Result<(), ErrorCode>) {
    if c.collection_boarding_info is Some {
        (c, Err(ErrorCode::AlreadyExists))
    } else {
        match c.admin_config {
            None => (c, Err(ErrorCode::NotFound)),
            Some(cfg) => {
                if !seed_valid(c) {
                    (c, Err(ErrorCode::AddressMismatch))
                } else {
                    match derive_of(c.program_id@, c.admin_config_address@, c.seed@) {
                        None => (c, Err(ErrorCode::AddressMismatch)),
                        Some(p) => {
                            if p.0 != c.collection_boarding_info_address@ {
                                (c, Err(ErrorCode::AddressMismatch))
                            } else {
                                (
                                    InitializeListingRequest {
                                        collection_boarding_info: Some(created_record(
                                            c, cfg.fee, p.1, name, auction_house, governance,
                                            meta_data_url, vanity_url, token_type, request_type,
                                        )),
                                        ..c
                                    },
                                    Ok(()),
                                )
                            }
                        }
                    }
                }
            }
        }
    }
}

/// Creates a listing request record at the caller-supplied target address.
///
/// The target address must be vacant, the governing configuration must
/// exist, the seed must be one of the record's identifying inputs, and the
/// target must equal the address freshly derived from the configuration and
/// the seed; the stored record starts `Pending` and enabled, snapshots the
/// configuration's fee, and records the derivation bump. Funding of the
/// record's escrow is the surrounding transfer mechanism's concern, not
/// this operation's.
pub fn initialize_listing_request(
    ctx: &mut InitializeListingRequest,
    name: String,
    auction_house: Identity,
    governance: Option<Identity>,
    meta_data_url: String,
    vanity_url: String,
    token_type: String,
    request_type: u8,
) -> (r: Result<(), ErrorCode>)
    ensures
        (*final(ctx), r) == spec_initialize_listing_request(
            *old(ctx), name, auction_house, governance, meta_data_url, vanity_url, token_type,
            request_type,
        ),
        old(ctx).collection_boarding_info is Some ==> r == Err::<(), ErrorCode>(
            ErrorCode::AlreadyExists,
        ),
        old(ctx).collection_boarding_info is None && old(ctx).admin_config is None ==> r == Err::<(), ErrorCode>(ErrorCode::NotFound),
        old(ctx).collection_boarding_info is None && old(ctx).admin_config is Some && !(seed_valid(
            *old(ctx),
        ) && target_address_derived(*old(ctx))) ==> r == Err::<(), ErrorCode>(
            ErrorCode::AddressMismatch,
        ),
        r is Err ==> *final(ctx) == *old(ctx),
        r is Ok <==> old(ctx).collection_boarding_info is None && old(ctx).admin_config is Some
            && seed_valid(*old(ctx)) && target_address_derived(*old(ctx)),
{
    if ctx.collection_boarding_info.is_some() {
        return Err(ErrorCode::AlreadyExists);
    }
    let fee: u64 = match &ctx.admin_config {
        None => {
            return Err(ErrorCode::NotFound);
        },
        Some(cfg) => cfg.fee,
    };
    if !(ctx.seed == ctx.update_authority || ctx.seed == ctx.verified_collection_address) {
        return Err(ErrorCode::AddressMismatch);
    }
    match derive_address(&ctx.program_id, &ctx.admin_config_address, &ctx.seed) {
        None => Err(ErrorCode::AddressMismatch),
        Some((address, bump)) => {
            proof {
                lemma_identity_view_injective(address, ctx.collection_boarding_info_address);
            }
            if !(address == ctx.collection_boarding_info_address) {
                return Err(ErrorCode::AddressMismatch);
            }
            let governance_id: Identity = match governance {
                Some(g) => g,
                None => Identity::zeroed(),
            };
            ctx.collection_boarding_info = Some(
                CollectionListingRequest {
                    verified_collection_address: ctx.verified_collection_address,
                    collection_update_authority: ctx.update_authority,
                    approval_state: ApprovalState::Pending,
                    enable: true,
                    request_type,
                    auction_house,
                    governance: governance_id,
                    admin_config: ctx.admin_config_address,
                    listing_requestor: ctx.listing_requestor,
                    fee,
                    name,
                    vanity_url,
                    token_type,
                    meta_data_url,
                    bump,
                },
            );
            Ok(())
        },
    }
}

// --- Decision ---

/// The outcome of `approve`: the state it leaves behind and the reported
/// result. A decision moves the configuration's live fee out of the
/// record's escrow — to the administrator on approval, back to the
/// requestor on denial — and overwrites the approval state.
pub open spec fn spec_approve(c: Admin, is_approved: bool) -> (Admin, Result<(), ErrorCode>) {
    match admin_ctx_error(c) {
        Some(e) => (c, Err(e)),
        None => {
            if c.collection_boarding_info.lamports < c.admin_config.fee {
                (c, Err(ErrorCode::InsufficientBalance))
            } else {
                let decided = CollectionListingRequest {
                    approval_state: if is_approved {
                        ApprovalState::Approved
                    } else {
                        ApprovalState::Denied
                    },
                    ..c.collection_boarding_info.info
                };
                let escrow = RecordAccount {
                    lamports: (c.collection_boarding_info.lamports - c.admin_config.fee) as u64,
                    info: decided,
                    ..c.collection_boarding_info
                };
                if is_approved {
                    (
                        Admin {
                            collection_boarding_info: escrow,
                            admin: Wallet {
                                lamports: (c.admin.lamports + c.admin_config.fee) as u64,
                                ..c.admin
                            },
                            ..c
                        },
                        Ok(()),
                    )
                } else {
                    (
                        Admin {
                            collection_boarding_info: escrow,
                            listing_requestor: Wallet {
                                lamports: (c.listing_requestor.lamports + c.admin_config.fee) as u64,
                                ..c.listing_requestor
                            },
                            ..c
                        },
                        Ok(()),
                    )
                }
            }
        },
    }
}

/// Decides a listing request: approval moves the configuration's live fee
/// from the record's escrow to the administrator, denial moves it back to
/// the requestor; the approval state is overwritten either way.
///
/// Only the governing configuration's administrator may call this, the
/// record must be governed by that configuration, and the escrow must cover
/// the fee; any failure changes nothing. A repeated decision repeats the
/// transfer — the escrow, not the approval state, is what stops a second
/// approval from charging twice.
pub fn approve(ctx: &mut Admin, is_approved: bool) -> (r: Result<(), ErrorCode>)
    requires
        admin_ctx_error(*old(ctx)) is None && old(ctx).collection_boarding_info.lamports >= old(ctx).admin_config.fee && is_approved ==> old(ctx).admin.lamports + old(ctx).admin_config.fee
            <= u64::MAX,
        admin_ctx_error(*old(ctx)) is None && old(ctx).collection_boarding_info.lamports >= old(ctx).admin_config.fee && !is_approved ==> old(ctx).listing_requestor.lamports + old(ctx).admin_config.fee <= u64::MAX,
    ensures
        (*final(ctx), r) == spec_approve(*old(ctx), is_approved),
        !admin_authorized(*old(ctx)) ==> r == Err::<(), ErrorCode>(ErrorCode::Unauthorized),
        r is Err ==> *final(ctx) == *old(ctx),
        r is Ok <==> admin_ctx_error(*old(ctx)) is None && old(ctx).collection_boarding_info.lamports >= old(ctx).admin_config.fee,
        r is Ok ==> final(ctx).collection_boarding_info.lamports == old(ctx).collection_boarding_info.lamports - old(ctx).admin_config.fee,
        r is Ok ==> final(ctx).collection_boarding_info.info.approval_state == (if is_approved {
            ApprovalState::Approved
        } else {
            ApprovalState::Denied
        }),
        r is Ok && is_approved ==> final(ctx).admin.lamports == old(ctx).admin.lamports + old(ctx).admin_config.fee && final(ctx).listing_requestor == old(ctx).listing_requestor,
        r is Ok && !is_approved ==> final(ctx).listing_requestor.lamports == old(ctx).listing_requestor.lamports + old(ctx).admin_config.fee && final(ctx).admin == old(ctx).admin,
{
    match check_admin_ctx(ctx) {
        Some(e) => Err(e),
        None => {
            let fee = ctx.admin_config.fee;
            if ctx.collection_boarding_info.lamports < fee {
                return Err(ErrorCode::InsufficientBalance);
            }
            ctx.collection_boarding_info.lamports = ctx.collection_boarding_info.lamports - fee;
            if is_approved {
                ctx.admin.lamports = ctx.admin.lamports + fee;
                ctx.collection_boarding_info.info.approval_state = ApprovalState::Approved;
            } else {
                ctx.listing_requestor.lamports = ctx.listing_requestor.lamports + fee;
                ctx.collection_boarding_info.info.approval_state = ApprovalState::Denied;
            }
            Ok(())
        },
    }
}

// --- Toggle ---

/// The outcome of `enable`: the state it leaves behind and the reported
/// result. The toggle moves no funds and touches nothing but the flag.
pub open spec fn spec_enable(c: Admin, is_enabled: bool) -> (Admin, Result<(), ErrorCode>) {
    match admin_ctx_error(c) {
        Some(e) => (c, Err(e)),
        None => (
            Admin {
                collection_boarding_info: RecordAccount {
                    info: CollectionListingRequest {
                        enable: is_enabled,
                        ..c.collection_boarding_info.info
                    },
                    ..c.collection_boarding_info
                },
                ..c
            },
            Ok(()),
        ),
    }
}

/// Sets the record's operability flag. Authorization is the same as for a
/// decision; no funds move, and the approval state is untouched — a record
/// can be approved and disabled at once.
pub fn enable(ctx: &mut Admin, is_enabled: bool) -> (r: Result<(), ErrorCode>)
    ensures
        (*final(ctx), r) == spec_enable(*old(ctx), is_enabled),
        !admin_authorized(*old(ctx)) ==> r == Err::<(), ErrorCode>(ErrorCode::Unauthorized),
        r is Err ==> *final(ctx) == *old(ctx),
        r is Ok <==> admin_ctx_error(*old(ctx)) is None,
        r is Ok ==> final(ctx).collection_boarding_info.info.enable == is_enabled
            && final(ctx).collection_boarding_info.info.approval_state == old(ctx).collection_boarding_info.info.approval_state && final(ctx).collection_boarding_info.lamports == old(ctx).collection_boarding_info.lamports && final(ctx).admin == old(ctx).admin && final(ctx).listing_requestor == old(ctx).listing_requestor,
{
    match check_admin_ctx(ctx) {
        Some(e) => Err(e),
        None => {
            ctx.collection_boarding_info.info.enable = is_enabled;
            Ok(())
        },
    }
}

// --- Refund ---

/// Whether the caller of a refund is the record's requestor.
pub open spec fn refund_authorized(c: Refund) -> bool {
    c.listing_requestor.address == c.collection_boarding_info.info.listing_requestor
}

/// The outcome of `request_refund`: the state it leaves behind and the
/// reported result. The whole remaining escrow moves to the requestor and
/// the escrow balance ends at exactly zero.
pub open spec fn spec_request_refund(c: Refund) -> (Refund, Result<(), ErrorCode>) {
    if !refund_authorized(c) {
        (c, Err(ErrorCode::Unauthorized))
    } else {
        (
            Refund {
                listing_requestor: Wallet {
                    lamports: (c.listing_requestor.lamports + c.collection_boarding_info.lamports) as u64,
                    ..c.listing_requestor
                },
                collection_boarding_info: RecordAccount { lamports: 0u64, ..c.collection_boarding_info },
            },
            Ok(()),
        )
    }
}

/// Drains the record's entire remaining escrow balance to its requestor and
/// leaves the balance at exactly zero. Only the requestor may call this; it
/// is callable in any approval state, and calling it again once the balance
/// is zero succeeds and moves nothing.
pub fn request_refund(ctx: &mut Refund) -> (r: Result<(), ErrorCode>)
    requires
        refund_authorized(*old(ctx)) ==> old(ctx).listing_requestor.lamports + old(ctx).collection_boarding_info.lamports <= u64::MAX,
    ensures
        (*final(ctx), r) == spec_request_refund(*old(ctx)),
        !refund_authorized(*old(ctx)) ==> r == Err::<(), ErrorCode>(ErrorCode::Unauthorized)
            && *final(ctx) == *old(ctx),
        refund_authorized(*old(ctx)) ==> r == Ok::<(), ErrorCode>(()) && final(ctx).listing_requestor.lamports == old(ctx).listing_requestor.lamports + old(ctx).collection_boarding_info.lamports && final(ctx).collection_boarding_info.lamports == 0
            && final(ctx).collection_boarding_info.info == old(ctx).collection_boarding_info.info,
{
    if !(ctx.listing_requestor.address == ctx.collection_boarding_info.info.listing_requestor) {
        return Err(ErrorCode::Unauthorized);
    }
    ctx.listing_requestor.lamports = ctx.listing_requestor.lamports
        + ctx.collection_boarding_info.lamports;
    ctx.collection_boarding_info.lamports = 0;
    Ok(())
}

// --- Metadata ---

/// Whether the caller of a metadata edit is the record's requestor or the
/// collection's update authority.
pub open spec fn metadata_authorized(c: MetaDataMod) -> bool {
    c.modifier == c.collection_boarding_info.listing_requestor || c.modifier
        == c.collection_boarding_info.collection_update_authority
}

/// The outcome of `update_metadata`: the state it leaves behind and the
/// reported result.
pub open spec fn spec_update_metadata(c: MetaDataMod, new_metadata_url: String) -> (
    MetaDataMod,
    Result<(), ErrorCode>,
) {
    if !metadata_authorized(c) {
        (c, Err(ErrorCode::Unauthorized))
    } else {
        (
            MetaDataMod {
                collection_boarding_info: CollectionListingRequest {
                    meta_data_url: new_metadata_url,
                    ..c.collection_boarding_info
                },
                ..c
            },
            Ok(()),
        )
    }
}

/// Replaces the record's descriptive metadata location. Only the requestor
/// or the collection's update authority may call this; any other caller
/// gets `Unauthorized` and the field keeps its value. No funds move.
pub fn update_metadata(ctx: &mut MetaDataMod, new_metadata_url: String) -> (r: Result<
    (),
    ErrorCode,
>)
    ensures
        (*final(ctx), r) == spec_update_metadata(*old(ctx), new_metadata_url),
        !metadata_authorized(*old(ctx)) ==> r == Err::<(), ErrorCode>(ErrorCode::Unauthorized)
            && *final(ctx) == *old(ctx),
        metadata_authorized(*old(ctx)) ==> r == Ok::<(), ErrorCode>(()) && final(ctx).collection_boarding_info.meta_data_url == new_metadata_url && final(ctx).collection_boarding_info.approval_state == old(ctx).collection_boarding_info.approval_state && final(ctx).modifier == old(ctx).modifier,
{
    if !(ctx.modifier == ctx.collection_boarding_info.listing_requestor || ctx.modifier
        == ctx.collection_boarding_info.collection_update_authority) {
        return Err(ErrorCode::Unauthorized);
    }
    ctx.collection_boarding_info.meta_data_url = new_metadata_url;
    Ok(())
}

} // verus!
