//! The account bundles the host ledger hands to each operation. The host
//! has already verified, before an operation body runs, that every signer
//! identity named here actually signed the call; everything else — the
//! authorization matrix, the cross-checks between accounts, and the balance
//! custody — is checked and proved inside the operations themselves.

use vstd::prelude::*;
use crate::identity::Identity;
use crate::state::{CollectionListingRequest, Config, RecordAccount, Wallet};

verus! {

/// Accounts for draining a record's escrow back to its requestor.
#[derive(Clone, Debug)]
pub struct Refund {
    /// The calling identity (a verified signer) and its balance; the drain
    /// is only owed when it equals the record's requestor.
    pub listing_requestor: Wallet,
    /// The record whose escrow is drained.
    pub collection_boarding_info: RecordAccount,
}

/// Accounts for editing a record's descriptive metadata.
#[derive(Clone, Debug)]
pub struct MetaDataMod {
    /// The calling identity, a verified signer.
    pub modifier: Identity,
    /// The record being edited.
    pub collection_boarding_info: CollectionListingRequest,
}

/// Accounts for the administrator's decision and toggle operations.
#[derive(Clone, Debug)]
pub struct Admin {
    /// The record being decided or toggled, with its escrow balance.
    pub collection_boarding_info: RecordAccount,
    /// The calling identity (a verified signer) and its balance, which
    /// receives the fee on approval.
    pub admin: Wallet,
    /// The address the supplied configuration lives at; the record must
    /// name it as its governing configuration.
    pub admin_config_address: Identity,
    /// The configuration whose administrator and fee govern the call.
    pub admin_config: Config,
    /// The account standing at the address the record names as requestor;
    /// it receives the fee on denial.
    pub listing_requestor: Wallet,
}

/// Accounts for creating a listing request record.
#[derive(Clone, Debug)]
pub struct InitializeListingRequest {
    /// The caller-supplied target address for the new record.
    pub collection_boarding_info_address: Identity,
    /// What the target address holds: `None` when vacant, `Some` when a
    /// record already lives there.
    pub collection_boarding_info: Option<CollectionListingRequest>,
    /// The calling identity, a verified signer; becomes the record's
    /// requestor.
    pub listing_requestor: Identity,
    /// Identifier of the collection being vetted.
    pub verified_collection_address: Identity,
    /// Identity claiming update rights over the collection.
    pub update_authority: Identity,
    /// Seed for address derivation; must equal the collection identifier or
    /// the update authority.
    pub seed: Identity,
    /// The address of the governing configuration.
    pub admin_config_address: Identity,
    /// What the configuration address holds: `None` when no configuration
    /// exists there.
    pub admin_config: Option<Config>,
    /// The program identity under which record addresses are derived.
    pub program_id: Identity,
}

/// Accounts for creating the singleton configuration.
#[derive(Clone, Debug)]
pub struct InitializeConfig {
    /// What the configuration address holds: `None` when vacant.
    pub admin_config: Option<Config>,
    /// The calling identity, a verified signer; pays for the account's
    /// storage, which the host settles outside this core.
    pub funder: Identity,
}

/// Accounts for mutating the configuration.
#[derive(Clone, Debug)]
pub struct UpdateConfig {
    /// The configuration being changed.
    pub admin_config: Config,
    /// The calling identity, a verified signer; must be the current
    /// administrator.
    pub admin: Identity,
}

} // verus!
