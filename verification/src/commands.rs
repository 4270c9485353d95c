use vstd::prelude::*;

verus! {

/// A request to change one bank account.
///
/// Commands are transient intents: they are validated against the current
/// folded state, never persisted and never replayed. Amounts are
/// fixed-point integers in minor units.
#[derive(Debug, PartialEq, Eq)]
pub enum BankAccountCommand {
    DepositMoney { amount: u64 },
    WithdrawMoney { amount: u64 },
    WriteCheck { check_number: String, amount: u64 },
    AtmWithdrawal { atm_id: String, amount: u64 },
}

/// The mathematical model of a [`BankAccountCommand`].
pub enum CommandView {
    DepositMoney { amount: int },
    WithdrawMoney { amount: int },
    WriteCheck { check_number: Seq<char>, amount: int },
    AtmWithdrawal { atm_id: Seq<char>, amount: int },
}

impl View for BankAccountCommand {
    type V = CommandView;

    open spec fn view(&self) -> CommandView {
        match self {
            BankAccountCommand::DepositMoney { amount } => {
                CommandView::DepositMoney { amount: *amount as int }
            },
            BankAccountCommand::WithdrawMoney { amount } => {
                CommandView::WithdrawMoney { amount: *amount as int }
            },
            BankAccountCommand::WriteCheck { check_number, amount } => {
                CommandView::WriteCheck { check_number: check_number@, amount: *amount as int }
            },
            BankAccountCommand::AtmWithdrawal { atm_id, amount } => {
                CommandView::AtmWithdrawal { atm_id: atm_id@, amount: *amount as int }
            },
        }
    }
}

} // verus!
