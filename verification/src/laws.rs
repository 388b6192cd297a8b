//! Laws that relate several operations: what holds across repeated calls,
//! stated over the operations' outcome functions and proved once for all
//! inputs.

use vstd::prelude::*;
use crate::config_ops::{config_authorized, spec_update_config};
use crate::contexts::{Admin, MetaDataMod, Refund, UpdateConfig};
use crate::errors::ErrorCode;
use crate::listing_ops::{
    admin_ctx_error, refund_authorized, spec_approve, spec_enable, spec_request_refund,
    spec_update_metadata,
};
use crate::state::CollectionListingRequest;

verus! {

/// Whether two records agree on every field fixed at creation: everything
/// but the approval state, the operability flag, and the editable
/// metadata location.
pub open spec fn same_created_identity(a: CollectionListingRequest, b: CollectionListingRequest) -> bool {
    a.verified_collection_address == b.verified_collection_address
        && a.collection_update_authority == b.collection_update_authority
        && a.request_type == b.request_type && a.auction_house == b.auction_house && a.governance
        == b.governance && a.admin_config == b.admin_config && a.listing_requestor
        == b.listing_requestor && a.fee == b.fee && a.name == b.name && a.vanity_url
        == b.vanity_url && a.token_type == b.token_type && a.bump == b.bump
}

/// A record's identifying fields never change after creation: the
/// decision, the toggle, the metadata edit and the refund each keep the
/// requestor, the collection and its authority, the governing
/// configuration, the fee snapshot and the bump exactly as created,
/// whether the call succeeds or fails.
pub proof fn lemma_record_identity_is_immutable(
    a: Admin,
    is_approved: bool,
    is_enabled: bool,
    m: MetaDataMod,
    url: String,
    f: Refund,
)
    ensures
        same_created_identity(
            spec_approve(a, is_approved).0.collection_boarding_info.info,
            a.collection_boarding_info.info,
        ),
        same_created_identity(
            spec_enable(a, is_enabled).0.collection_boarding_info.info,
            a.collection_boarding_info.info,
        ),
        same_created_identity(
            spec_update_metadata(m, url).0.collection_boarding_info,
            m.collection_boarding_info,
        ),
        spec_request_refund(f).0.collection_boarding_info.info == f.collection_boarding_info.info,
{
}

/// Refunding twice is safe: whatever the first refund leaves behind, a
/// second refund leaves exactly the same state — once the escrow is at
/// zero there is nothing left to move — and, for the record's requestor,
/// the second call still reports success rather than an error.
pub proof fn lemma_refund_idempotent(c: Refund)
    ensures
        spec_request_refund(spec_request_refund(c).0).0 == spec_request_refund(c).0,
        refund_authorized(c) ==> spec_request_refund(spec_request_refund(c).0).1 == Ok::<
            (),
            ErrorCode,
        >(()),
{
}

/// A decision cannot charge the same escrow twice: when the escrow holds
/// exactly the positive fee, the first decision succeeds and empties it,
/// and a second decision — approval or denial alike — fails with
/// `InsufficientBalance` instead of moving funds again.
pub proof fn lemma_no_double_charge(c: Admin, first: bool, second: bool)
    requires
        admin_ctx_error(c) is None,
        c.collection_boarding_info.lamports == c.admin_config.fee,
        c.admin_config.fee > 0,
    ensures
        spec_approve(c, first).1 == Ok::<(), ErrorCode>(()),
        spec_approve(c, first).0.collection_boarding_info.lamports == 0,
        spec_approve(spec_approve(c, first).0, second).1 == Err::<(), ErrorCode>(
            ErrorCode::InsufficientBalance,
        ),
        spec_approve(spec_approve(c, first).0, second).0 == spec_approve(c, first).0,
{
}

/// Handing administratorship to the sitting administrator is an idempotent
/// no-op: the call succeeds and the configuration is exactly as before.
pub proof fn lemma_transfer_to_self_is_noop(c: UpdateConfig)
    requires
        config_authorized(c),
    ensures
        spec_update_config(c, c.admin_config.admin).0 == c,
        spec_update_config(c, c.admin_config.admin).1 == Ok::<(), ErrorCode>(()),
{
}

} // verus!
