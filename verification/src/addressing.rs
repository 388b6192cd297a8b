//! Deterministic record addressing: every listing request lives at an
//! address derived from its governing configuration and a seed identity, so
//! that the same inputs always name the same record and the record address
//! is no valid signing identity.

use vstd::prelude::*;
use crate::identity::Identity;

verus! {

/// The address and bump that program-derived addressing yields for a program
/// id, a configuration address and a seed identity, each given as its bytes;
/// `None` in the statistically improbable event that no bump works. The
/// derivation is a pure function of these three inputs.
pub uninterp spec fn derive_of(program: Seq<u8>, config: Seq<u8>, seed: Seq<u8>) -> Option<(Seq<u8>, u8)>;

/// Derives the unique record address, and its bump discriminant, for a
/// listing request governed by the configuration at `config_address` and
/// seeded with `seed` under the program `program_id`.
///
/// Relies on anchor_lang's `Pubkey::try_find_program_address` (defined on
/// `solana_address::Address`, re-exported by anchor_lang's prelude): the
/// result is a pure function of the seed bytes and the program id, and is
/// `None` only when no bump seed yields a viable address.
#[verifier::external_body]
pub fn derive_address(program_id: &Identity, config_address: &Identity, seed: &Identity) -> (r: Option<(Identity, u8)>)
    ensures
        match r {
            Some(p) => derive_of(program_id@, config_address@, seed@) == Some((p.0@, p.1)),
            None => derive_of(program_id@, config_address@, seed@) is None,
        },
{
    let pid = anchor_lang::prelude::Pubkey::new_from_array(program_id.bytes);
    let seeds: [&[u8]; 2] = [&config_address.bytes, &seed.bytes];
    match anchor_lang::prelude::Pubkey::try_find_program_address(&seeds, &pid) {
        Some((address, bump)) => Some((Identity { bytes: address.to_bytes() }, bump)),
        None => None,
    }
}

} // verus!
