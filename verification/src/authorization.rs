//! The authorization check: whether a presented credential controls a
//! deposit account.

use vstd::prelude::*;
use crate::identity::Identity;
use crate::account::DepositAccount;
use crate::errors::SovereignError;

verus! {

/// Succeeds iff the presented credential proves control of exactly the
/// identity recorded as the account's owner. Mandatory on every deposit
/// and withdrawal; side-effect free.
pub fn authorize(caller: &Identity, account: &DepositAccount) -> (r: Result<(), SovereignError>)
    ensures
        account.owner@ == caller@ ==> r == Ok::<(), SovereignError>(()),
        account.owner@ != caller@ ==> r == Err::<(), SovereignError>(SovereignError::Unauthorized),
{
    if account.owner.eq_id(caller) {
        Ok(())
    } else {
        Err(SovereignError::Unauthorized)
    }
}

} // verus!
