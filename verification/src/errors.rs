//! Error taxonomy of the ledger core and of the settlement gateway.

use vstd::prelude::*;

verus! {

/// Why the ledger refused an operation. Every failure leaves the ledger
/// exactly as it was before the call.
#[derive(Clone, Copy, Debug, PartialEq, Eq, Structural)]
pub enum SovereignError {
    /// An account with this identity already exists.
    AlreadyExists,
    /// The caller's credential does not match the account's recorded
    /// owner, or a derived signing identity failed to validate.
    Unauthorized,
    /// The operation's asset does not match the account's recorded asset.
    AssetMismatch,
    /// A withdrawal asked for more than the recorded balance.
    InsufficientBalance,
    /// The settlement gateway rejected the fund movement.
    TransferFailed,
    /// The custody vault for a token account could not be established.
    VaultProvisionError,
}

/// What the settlement gateway reports when a fund movement fails.
#[derive(Clone, Copy, Debug, PartialEq, Eq, Structural)]
pub enum GatewayError {
    /// The source does not hold enough of the asset.
    InsufficientFunds,
    /// A named holding is not denominated in the requested asset.
    AssetMismatch,
    /// The presented authority cannot move funds out of the source.
    Unauthorized,
}

} // verus!
