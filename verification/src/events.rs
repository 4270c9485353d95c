use vstd::prelude::*;

verus! {

/// An immutable fact about one bank account.
///
/// Amounts and balances are fixed-point integers in minor units. Each
/// money-moving event carries the *resulting* balance, not just the delta,
/// so folding an event into state is a pure overwrite.
#[derive(Debug, PartialEq, Eq)]
pub enum BankAccountEvent {
    AccountOpened { account_id: String },
    CustomerDepositedMoney { amount: u64, balance: u64 },
    CustomerWithdrewCash { amount: u64, balance: u64 },
    CustomerWroteCheck { check_number: String, amount: u64, balance: u64 },
}

/// The mathematical model of a [`BankAccountEvent`]: strings become
/// character sequences and money becomes unbounded integers.
pub enum AccountEventView {
    AccountOpened { account_id: Seq<char> },
    CustomerDepositedMoney { amount: int, balance: int },
    CustomerWithdrewCash { amount: int, balance: int },
    CustomerWroteCheck { check_number: Seq<char>, amount: int, balance: int },
}

impl View for BankAccountEvent {
    type V = AccountEventView;

    open spec fn view(&self) -> AccountEventView {
        match self {
            BankAccountEvent::AccountOpened { account_id } => {
                AccountEventView::AccountOpened { account_id: account_id@ }
            },
            BankAccountEvent::CustomerDepositedMoney { amount, balance } => {
                AccountEventView::CustomerDepositedMoney {
                    amount: *amount as int,
                    balance: *balance as int,
                }
            },
            BankAccountEvent::CustomerWithdrewCash { amount, balance } => {
                AccountEventView::CustomerWithdrewCash {
                    amount: *amount as int,
                    balance: *balance as int,
                }
            },
            BankAccountEvent::CustomerWroteCheck { check_number, amount, balance } => {
                AccountEventView::CustomerWroteCheck {
                    check_number: check_number@,
                    amount: *amount as int,
                    balance: *balance as int,
                }
            },
        }
    }
}

impl DeepView for BankAccountEvent {
    type V = AccountEventView;

    open spec fn deep_view(&self) -> AccountEventView {
        self.view()
    }
}

impl Clone for BankAccountEvent {
    /// Committed events are handed out by value, so a clone must carry
    /// exactly the fields of the original.
    fn clone(&self) -> (r: Self)
        ensures
            r == *self,
    {
        match self {
            BankAccountEvent::AccountOpened { account_id } => {
                BankAccountEvent::AccountOpened { account_id: account_id.clone() }
            },
            BankAccountEvent::CustomerDepositedMoney { amount, balance } => {
                BankAccountEvent::CustomerDepositedMoney { amount: *amount, balance: *balance }
            },
            BankAccountEvent::CustomerWithdrewCash { amount, balance } => {
                BankAccountEvent::CustomerWithdrewCash { amount: *amount, balance: *balance }
            },
            BankAccountEvent::CustomerWroteCheck { check_number, amount, balance } => {
                BankAccountEvent::CustomerWroteCheck {
                    check_number: check_number.clone(),
                    amount: *amount,
                    balance: *balance,
                }
            },
        }
    }
}

/// The stable serialization tag of each event variant.
pub open spec fn event_type_of(e: AccountEventView) -> Seq<char> {
    match e {
        AccountEventView::AccountOpened { .. } => "AccountOpened"@,
        AccountEventView::CustomerDepositedMoney { .. } => "CustomerDepositedMoney"@,
        AccountEventView::CustomerWithdrewCash { .. } => "CustomerWithdrewCash"@,
        AccountEventView::CustomerWroteCheck { .. } => "CustomerWroteCheck"@,
    }
}

impl BankAccountEvent {
    /// The stable tag persisted alongside the payload; unique per variant,
    /// so historical events of an older shape can still be recognised.
    pub fn event_type(&self) -> (r: String)
        ensures
            r@ == event_type_of(self@),
    {
        match self {
            BankAccountEvent::AccountOpened { .. } => "AccountOpened".to_owned(),
            BankAccountEvent::CustomerDepositedMoney { .. } => "CustomerDepositedMoney".to_owned(),
            BankAccountEvent::CustomerWithdrewCash { .. } => "CustomerWithdrewCash".to_owned(),
            BankAccountEvent::CustomerWroteCheck { .. } => "CustomerWroteCheck".to_owned(),
        }
    }

    /// The schema version persisted alongside the payload.
    pub fn event_version(&self) -> (r: String)
        ensures
            r@ == "1.0"@,
    {
        "1.0".to_owned()
    }
}

} // verus!
