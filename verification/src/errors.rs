use vstd::prelude::*;

verus! {

/// Why the decide step refused a command.
///
/// Decide-phase errors are recoverable: nothing was appended to the event
/// log and the aggregate state is untouched.
#[derive(Clone, Copy, Debug, PartialEq, Eq)]
pub enum BankAccountError {
    /// A withdrawal asked for more than the current balance.
    InsufficientFunds,
    /// The command carried an amount of zero.
    InvalidAmount,
    /// The command variant has no validation rule; it is refused rather
    /// than silently accepted with no events.
    UnsupportedCommand,
}

/// The text that `BankAccountError::message` returns for each variant.
pub open spec fn error_message(e: BankAccountError) -> Seq<char> {
    match e {
        BankAccountError::InsufficientFunds => "funds not available"@,
        BankAccountError::InvalidAmount => "invalid amount"@,
        BankAccountError::UnsupportedCommand => "unsupported command"@,
    }
}

impl BankAccountError {
    /// A human-readable description of the refusal.
    pub fn message(&self) -> (r: String)
        ensures
            r@ == error_message(*self),
    {
        match self {
            BankAccountError::InsufficientFunds => "funds not available".to_owned(),
            BankAccountError::InvalidAmount => "invalid amount".to_owned(),
            BankAccountError::UnsupportedCommand => "unsupported command".to_owned(),
        }
    }
}

/// Refusal from the ATM network collaborator.
#[derive(Clone, Copy, Debug, PartialEq, Eq)]
pub struct AtmError;

/// Refusal from the check-validation collaborator.
#[derive(Clone, Copy, Debug, PartialEq, Eq)]
pub struct CheckingError;

/// The event log refused a conditional append because the caller's
/// expected version no longer matches the log.
#[derive(Clone, Copy, Debug, PartialEq, Eq)]
pub struct VersionConflict;

/// Why a whole submit cycle failed.
///
/// `Rejected` means the decide step refused the command and the log was
/// never touched; `ConcurrencyConflict` means the decision was made from a
/// stale snapshot and the conditional append was refused, so the caller
/// must reload fresh state and retry.
#[derive(Clone, Copy, Debug, PartialEq, Eq)]
pub enum EngineError {
    Rejected(BankAccountError),
    ConcurrencyConflict,
}

} // verus!
