use vstd::prelude::*;
use crate::errors::AtmError;
use crate::errors::CheckingError;

verus! {

/// The bundle of external capabilities the aggregate may consult while
/// handling a command. A capability can authorize or refuse an action, but it
/// never mutates the aggregate itself: only folded events change state.
///
/// These stand-ins always authorize; a live system injects real
/// collaborators at the boundary instead.
pub struct BankAccountServices;

impl BankAccountServices {
    /// Authorizes a cash withdrawal at an ATM.
    pub fn atm_withdrawal(&self, _atm_id: &str, _amount: i64) -> (r: Result<(), AtmError>)
        ensures
            r is Ok,
    {
        Ok(())
    }

    /// Validates a written check against the account.
    pub fn validate_check(&self, _account: &str, _check: &str) -> (r: Result<(), CheckingError>)
        ensures
            r is Ok,
    {
        Ok(())
    }
}

} // verus!
