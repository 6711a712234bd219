//! The vault authority deriver: a deterministic signing identity bound
//! to one deposit account, used to authorize outbound token moves
//! without any party holding a private key for it.

use vstd::prelude::*;
use crate::identity::Identity;

verus! {

/// The signing identity and bump proof that the settlement platform
/// derives for a deposit account under a given ledger program, or
/// nothing in the statistically improbable event that no viable bump
/// exists. A pure function of the two identities alone: every
/// derivation for the same account under the same program agrees.
pub uninterp spec fn vault_authority_of(program_id: Seq<u8>, account_id: Seq<u8>) -> Option<(Seq<u8>, u8)>;

/// Relies on `Pubkey::try_find_program_address` (seeded with the
/// account's address alone): the derived address and bump seed are a
/// function of the seeds and the program id and of nothing else, and
/// `None` comes back only when no bump seed is viable.
#[verifier::external_body]
fn try_derive(program_id: &Identity, account_id: &Identity) -> (r: Option<(Identity, u8)>)
    ensures
        match r {
            Some(p) => vault_authority_of(program_id@, account_id@) == Some((p.0@, p.1)),
            None => vault_authority_of(program_id@, account_id@) is None,
        },
{
    let program = anchor_lang::prelude::Pubkey::new_from_array(program_id.bytes);
    let seeds: &[&[u8]] = &[&account_id.bytes];
    match anchor_lang::prelude::Pubkey::try_find_program_address(seeds, &program) {
        Some((address, bump)) => Some((Identity { bytes: address.to_bytes() }, bump)),
        None => None,
    }
}

/// Recomputes the signing identity that controls the custody vault of
/// `account_id` under the ledger program `program_id`. Never cached:
/// callers derive it anew on every outbound token move.
pub fn derive_vault_authority(program_id: &Identity, account_id: &Identity) -> (r: Option<(Identity, u8)>)
    ensures
        match r {
            Some(p) => vault_authority_of(program_id@, account_id@) == Some((p.0@, p.1)),
            None => vault_authority_of(program_id@, account_id@) is None,
        },
{
    try_derive(program_id, account_id)
}

} // verus!
