use vstd::prelude::*;

use crate::errors::{AtmError, CheckingError};

verus! {

/// The externally-owned validators consulted during the decide step.
///
/// The bundle is read-only with respect to the aggregate: it is injected
/// into `BankAccount::handle` and never mutated by it. These sample
/// checks approve every request; a host wires real collaborators around
/// the library and resolves their outcome before any event is built.
pub struct BankAccountServices;

impl BankAccountServices {
    /// Check a withdrawal with the ATM network. This sample check
    /// approves every request.
    pub fn atm_withdrawal(&self, atm_id: &str, amount: u64) -> (r: Result<(), AtmError>)
        ensures
            r is Ok,
    {
        Ok(())
    }

    /// Check a written check with the validation authority. This sample
    /// check approves every request.
    pub fn validate_check(&self, account: &str, check: &str) -> (r: Result<(), CheckingError>)
        ensures
            r is Ok,
    {
        Ok(())
    }
}

} // verus!
