//! The registry's stored state: the singleton configuration and the
//! escrow-bearing listing request records, together with the balance-bearing
//! account shapes the host ledger hands to each operation.

use vstd::prelude::*;
use crate::identity::Identity;

verus! {

/// Where a listing request stands in its approval lifecycle. Only the
/// administrator moves a record out of `Pending`.
#[derive(Clone, Copy, Debug, PartialEq, Eq, Structural)]
pub enum ApprovalState {
    /// Initial state at creation; no decision has been taken.
    Pending,
    /// The administrator approved the request and captured the fee.
    Approved,
    /// The administrator denied the request and refunded the fee.
    Denied,
}

/// The singleton registry configuration: the administrator identity and the
/// fee charged when a decision is taken.
#[derive(Clone, Copy, Debug)]
pub struct Config {
    /// Identity authorized to decide requests, toggle records, and manage
    /// the configuration itself.
    pub admin: Identity,
    /// Amount of base currency units moved out of a record's escrow when the
    /// administrator decides it.
    pub fee: u64,
}

/// One escrow-backed listing request. Created once at a derived address;
/// only `approval_state`, `enable` and the descriptive metadata change
/// afterwards.
#[derive(Clone, Debug)]
pub struct CollectionListingRequest {
    /// Identifier of the collection being vetted; part of the
    /// address-derivation input.
    pub verified_collection_address: Identity,
    /// Identity claiming update rights over the collection; co-authorized
    /// with the requestor to edit descriptive metadata.
    pub collection_update_authority: Identity,
    /// Where the request stands: pending, approved, or denied.
    pub approval_state: ApprovalState,
    /// Operability flag, independent of the approval state.
    pub enable: bool,
    /// Free-form discriminator of the kind of request.
    pub request_type: u8,
    /// Marketplace the listing is meant for; stored, never interpreted here.
    pub auction_house: Identity,
    /// Optional governing body of the collection; all-zero when absent.
    pub governance: Identity,
    /// Address of the configuration that spawned this record; immutable.
    pub admin_config: Identity,
    /// Identity that created the record and funded its escrow; sole
    /// beneficiary of refunds and denial payouts.
    pub listing_requestor: Identity,
    /// Fee amount copied from the configuration at creation time.
    pub fee: u64,
    /// Display name of the collection.
    pub name: String,
    /// Vanity address of the collection.
    pub vanity_url: String,
    /// Kind of token the collection holds.
    pub token_type: String,
    /// Descriptive metadata location; editable by requestor or authority.
    pub meta_data_url: String,
    /// Bump discriminant recorded at creation so the derived address can be
    /// reconstructed.
    pub bump: u8,
}

/// A plain balance-bearing account of the host ledger: its address and the
/// funds it holds.
#[derive(Clone, Copy, Debug)]
pub struct Wallet {
    /// The account's address, which is also the identity that signs for it.
    pub address: Identity,
    /// Funds held at the address, in base currency units.
    pub lamports: u64,
}

/// A record account: the listing request data stored at an address together
/// with the escrow balance that address holds.
#[derive(Clone, Debug)]
pub struct RecordAccount {
    /// The derived address the record lives at.
    pub address: Identity,
    /// The record's escrow balance.
    pub lamports: u64,
    /// The stored listing request.
    pub info: CollectionListingRequest,
}

} // verus!
