//! Failure kinds of the registry's operations.

use vstd::prelude::*;

verus! {

/// Why an operation was rejected. Every failure is detected before any state
/// changes, and a rejected call leaves every account exactly as it was.
#[derive(Clone, Copy, Debug, PartialEq, Eq, Structural)]
pub enum ErrorCode {
    /// Creation targeted an address that already holds data.
    AlreadyExists,
    /// The operation referenced a configuration that does not exist.
    NotFound,
    /// The derived record address does not equal the supplied target, or a
    /// supplied account does not stand at the address the record names.
    AddressMismatch,
    /// The calling identity fails the operation's required-signer predicate.
    Unauthorized,
    /// The escrow balance does not cover the transfer the operation makes.
    InsufficientBalance,
    /// The record's governing configuration is not the configuration
    /// supplied in the call.
    InvalidCrossReference,
}

} // verus!
