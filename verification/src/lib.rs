//! Registry of escrow-backed approval requests.
//!
//! A party deposits funds into a uniquely-addressed listing request record
//! asking an administrator to approve an external collection; the
//! administrator either approves (capturing a fee) or denies (refunding the
//! fee), and the requestor may reclaim any residual escrowed balance. A
//! singleton configuration holds the administrator identity and the fee
//! schedule.
//!
//! The verified core covers deterministic record addressing, the
//! authorization matrix of every operation, and the balance-custody
//! arithmetic. The host ledger (keyed account storage, signature checks,
//! atomic commits) is the surrounding platform and supplies each operation's
//! inputs.

pub mod addressing;
pub mod config_ops;
pub mod contexts;
pub mod errors;
pub mod identity;
pub mod laws;
pub mod listing_ops;
pub mod state;

pub use listing_ops::approve;
pub use listing_ops::enable;
pub use listing_ops::initialize_listing_request;
pub use listing_ops::request_refund;
pub use listing_ops::update_metadata;

pub use config_ops::initialize_config;
pub use config_ops::set_fee;
pub use config_ops::update_config;
pub use contexts::Admin;
pub use contexts::InitializeConfig;
pub use contexts::InitializeListingRequest;
pub use contexts::MetaDataMod;
pub use contexts::Refund;
pub use contexts::UpdateConfig;

pub use addressing::derive_address;
pub use addressing::derive_of;
pub use errors::ErrorCode;
pub use identity::Identity;
pub use state::ApprovalState;
pub use state::CollectionListingRequest;
pub use state::Config;
pub use state::RecordAccount;
pub use state::Wallet;
