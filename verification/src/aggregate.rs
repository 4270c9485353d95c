use vstd::prelude::*;

use crate::commands::{BankAccountCommand, CommandView};
use crate::errors::BankAccountError;
use crate::events::{AccountEventView, BankAccountEvent};
use crate::services::BankAccountServices;

verus! {

/// The current truth of one bank account, derived solely from its event
/// history. It is a disposable cache over the event log: replaying the
/// log always rebuilds it.
#[derive(Clone, Copy, Debug, PartialEq, Eq)]
pub struct BankAccount {
    opened: bool,
    balance: u64,
}

/// The mathematical model of a [`BankAccount`].
pub struct AccountView {
    pub opened: bool,
    pub balance: int,
}

impl View for BankAccount {
    type V = AccountView;

    closed spec fn view(&self) -> AccountView {
        AccountView { opened: self.opened, balance: self.balance as int }
    }
}

/// The state of an account before any event has been applied.
pub open spec fn initial() -> AccountView {
    AccountView { opened: false, balance: 0 }
}

impl Default for BankAccount {
    /// A fresh aggregate, before any replay.
    fn default() -> (r: Self)
        ensures
            r@ == initial(),
    {
        BankAccount { opened: false, balance: 0 }
    }
}

/// The effect of one event on the account state.
///
/// Every declared event variant has a defined effect on every state: the
/// fold step is a total function. Because each money-moving event carries
/// its resulting balance, the effect is a pure overwrite, never an
/// accumulation.
pub open spec fn apply_event(state: AccountView, event: AccountEventView) -> AccountView {
    match event {
        AccountEventView::AccountOpened { .. } => AccountView { opened: true, ..state },
        AccountEventView::CustomerDepositedMoney { balance, .. } => AccountView {
            balance,
            ..state
        },
        AccountEventView::CustomerWithdrewCash { balance, .. } => AccountView { balance, ..state },
        AccountEventView::CustomerWroteCheck { balance, .. } => AccountView { balance, ..state },
    }
}

/// Folding a whole event history into a state, oldest event first.
pub open spec fn replay(state: AccountView, events: Seq<AccountEventView>) -> AccountView
    decreases events.len(),
{
    if events.len() == 0 {
        state
    } else {
        apply_event(replay(state, events.drop_last()), events.last())
    }
}

/// The decision rule: which events (if any) a command produces against a
/// given state.
///
/// Validation is side-effect-free: the rule only reads the state. A
/// command variant without a rule is refused explicitly, never accepted
/// silently with zero events.
pub open spec fn decide(state: AccountView, command: CommandView) -> Result<
    Seq<AccountEventView>,
    BankAccountError,
> {
    match command {
        CommandView::DepositMoney { amount } => {
            if amount <= 0 {
                Err(BankAccountError::InvalidAmount)
            } else {
                Ok(
                    seq![
                        AccountEventView::CustomerDepositedMoney {
                            amount,
                            balance: state.balance + amount,
                        },
                    ],
                )
            }
        },
        CommandView::WithdrawMoney { amount } => {
            if amount <= 0 {
                Err(BankAccountError::InvalidAmount)
            } else if state.balance - amount < 0 {
                Err(BankAccountError::InsufficientFunds)
            } else {
                Ok(
                    seq![
                        AccountEventView::CustomerWithdrewCash {
                            amount,
                            balance: state.balance - amount,
                        },
                    ],
                )
            }
        },
        CommandView::WriteCheck { .. } => Err(BankAccountError::UnsupportedCommand),
        CommandView::AtmWithdrawal { .. } => Err(BankAccountError::UnsupportedCommand),
    }
}

/// The model of a concrete decision result: the produced events as a
/// sequence of event models, or the refusal unchanged.
pub open spec fn decision_of(r: Result<Vec<BankAccountEvent>, BankAccountError>) -> Result<
    Seq<AccountEventView>,
    BankAccountError,
> {
    match r {
        Ok(events) => Ok(events.deep_view()),
        Err(e) => Err(e),
    }
}

impl BankAccount {
    /// The tag under which this aggregate type is registered; unique to
    /// the system.
    pub fn aggregate_type() -> (r: String)
        ensures
            r@ == "Account"@,
    {
        "Account".to_owned()
    }

    /// The decide step: validate `command` against the current state and
    /// emit the resulting events, without touching state or log.
    ///
    /// The result is exactly what the decision rule [`decide`] yields for
    /// the modelled state and command. `services` is the injected bundle
    /// of external validators; the rules implemented here decide without
    /// consulting it.
    pub fn handle(&self, command: BankAccountCommand, services: &BankAccountServices) -> (r:
        Result<Vec<BankAccountEvent>, BankAccountError>)
        requires
            command@ matches CommandView::DepositMoney { amount } ==> self@.balance + amount
                <= u64::MAX,
        ensures
            decision_of(r) == decide(self@, command@),
    {
        match command {
            BankAccountCommand::DepositMoney { amount } => {
                if amount == 0 {
                    Err(BankAccountError::InvalidAmount)
                } else {
                    let balance = self.balance + amount;
                    let mut events: Vec<BankAccountEvent> = Vec::new();
                    events.push(BankAccountEvent::CustomerDepositedMoney { amount, balance });
                    proof {
                        assert(events.deep_view() =~= decide(self@, command@)->Ok_0);
                    }
                    Ok(events)
                }
            },
            BankAccountCommand::WithdrawMoney { amount } => {
                if amount == 0 {
                    Err(BankAccountError::InvalidAmount)
                } else if amount > self.balance {
                    Err(BankAccountError::InsufficientFunds)
                } else {
                    let balance = self.balance - amount;
                    let mut events: Vec<BankAccountEvent> = Vec::new();
                    events.push(BankAccountEvent::CustomerWithdrewCash { amount, balance });
                    proof {
                        assert(events.deep_view() =~= decide(self@, command@)->Ok_0);
                    }
                    Ok(events)
                }
            },
            BankAccountCommand::WriteCheck { .. } => Err(BankAccountError::UnsupportedCommand),
            BankAccountCommand::AtmWithdrawal { .. } => Err(BankAccountError::UnsupportedCommand),
        }
    }

    /// The fold step: apply one committed event to the state.
    ///
    /// Total over all event variants and all states, and free of any
    /// requirement on the caller: replay can never get stuck.
    pub fn apply(&mut self, event: BankAccountEvent)
        ensures
            final(self)@ == apply_event(old(self)@, event@),
    {
        match event {
            BankAccountEvent::AccountOpened { .. } => {
                self.opened = true;
            },
            BankAccountEvent::CustomerDepositedMoney { amount: _, balance } => {
                self.balance = balance;
            },
            BankAccountEvent::CustomerWithdrewCash { amount: _, balance } => {
                self.balance = balance;
            },
            BankAccountEvent::CustomerWroteCheck { check_number: _, amount: _, balance } => {
                self.balance = balance;
            },
        }
    }

    /// Reconstitute a state observed earlier (a snapshot), instead of
    /// replaying its whole history.
    pub fn from_parts(opened: bool, balance: u64) -> (r: BankAccount)
        ensures
            r@ == (AccountView { opened, balance: balance as int }),
    {
        BankAccount { opened, balance }
    }

    /// Whether an `AccountOpened` event has been applied.
    pub fn is_opened(&self) -> (r: bool)
        ensures
            r == self@.opened,
    {
        self.opened
    }

    /// The current balance, in minor units.
    pub fn balance(&self) -> (r: u64)
        ensures
            r as int == self@.balance,
    {
        self.balance
    }
}

/// Replay determinism: state is a pure function of the event history.
/// Folding the same finite event sequence twice from the initial state
/// yields identical states; no clock, randomness or machine detail can
/// make two replays disagree.
pub proof fn lemma_replay_deterministic(
    events: Seq<AccountEventView>,
    s1: AccountView,
    s2: AccountView,
)
    requires
        s1 == replay(initial(), events),
        s2 == replay(initial(), events),
    ensures
        s1 == s2,
{
}

/// Folding is sequential: replaying a history in two stages, oldest
/// stage first, yields the same state as replaying it whole. A state
/// folded up to some version can therefore take later events as they
/// commit, with no re-read of the whole log.
pub proof fn lemma_replay_append(
    state: AccountView,
    earlier: Seq<AccountEventView>,
    later: Seq<AccountEventView>,
)
    ensures
        replay(state, earlier + later) == replay(replay(state, earlier), later),
    decreases later.len(),
{
    if later.len() == 0 {
        assert(earlier + later =~= earlier);
    } else {
        lemma_replay_append(state, earlier, later.drop_last());
        assert((earlier + later).drop_last() =~= earlier + later.drop_last());
    }
}

/// Withdrawal invariant: against any valid state, a withdrawal of more
/// than the current balance is refused with `InsufficientFunds` and
/// produces no events.
pub proof fn lemma_overdraft_refused(state: AccountView, amount: int)
    requires
        state.balance >= 0,
        amount > state.balance,
    ensures
        decide(state, CommandView::WithdrawMoney { amount }) == Result::<
            Seq<AccountEventView>,
            BankAccountError,
        >::Err(BankAccountError::InsufficientFunds),
{
}

/// No-op safety, decision half: a command variant without a validation
/// rule is always refused; the decision rule never turns it into events.
pub proof fn lemma_unsupported_command_refused(state: AccountView, command: CommandView)
    requires
        command is WriteCheck || command is AtmWithdrawal,
    ensures
        decide(state, command) == Result::<Seq<AccountEventView>, BankAccountError>::Err(
            BankAccountError::UnsupportedCommand,
        ),
{
}

} // verus!
