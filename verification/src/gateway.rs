//! Plans handed to the settlement gateway. The ledger never moves funds
//! itself: it validates a request, produces one of these plans, and
//! mutates its records only on the outcome the gateway reports.

use vstd::prelude::*;
use crate::identity::Identity;

verus! {

/// One fund movement for the settlement gateway to perform.
#[derive(Clone, Copy, Debug)]
pub enum GatewayRequest {
    /// Move native currency from one account to another, authorized by
    /// the source's own signature (inbound) or by the ledger program's
    /// ownership of the custody account (outbound).
    NativeTransfer { from: Identity, to: Identity, amount: u64 },
    /// Move tokens from the signer's own holding into the custody vault
    /// of `vault_of`, authorized by the signer's credential.
    TokenTransferBySigner { mint: Identity, signer: Identity, vault_of: Identity, amount: u64 },
    /// Move tokens out of the custody vault of `vault_of` to the
    /// recipient's holding, authorized by the vault's derived signing
    /// identity and its bump proof — never by a private credential.
    TokenTransferByVaultAuthority {
        mint: Identity,
        vault_of: Identity,
        recipient: Identity,
        amount: u64,
        authority: Identity,
        bump: u8,
    },
    /// Establish the custody vault for `vault_of`, denominated in
    /// `mint` and controlled exclusively by the derived authority.
    ProvisionVault { mint: Identity, vault_of: Identity, authority: Identity, bump: u8 },
}

} // verus!
