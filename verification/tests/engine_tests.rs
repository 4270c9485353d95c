use account_engine::aggregate::BankAccount;
use account_engine::commands::BankAccountCommand;
use account_engine::engine::{AggregateEngine, EventLog};
use account_engine::errors::{BankAccountError, EngineError};
use account_engine::events::BankAccountEvent;
use account_engine::services::BankAccountServices;

#[test]
fn test_submit_deposit_then_withdraw() {
    let services = BankAccountServices;
    let mut log = EventLog::new();

    let deposited = AggregateEngine::submit(
        &mut log,
        BankAccountCommand::DepositMoney { amount: 200 },
        &services,
    )
    .unwrap();
    assert_eq!(
        deposited,
        vec![BankAccountEvent::CustomerDepositedMoney { amount: 200, balance: 200 }]
    );

    let withdrew = AggregateEngine::submit(
        &mut log,
        BankAccountCommand::WithdrawMoney { amount: 100 },
        &services,
    )
    .unwrap();
    assert_eq!(
        withdrew,
        vec![BankAccountEvent::CustomerWithdrewCash { amount: 100, balance: 100 }]
    );

    assert_eq!(log.version(), 2);
    assert_eq!(
        log.read(),
        vec![
            BankAccountEvent::CustomerDepositedMoney { amount: 200, balance: 200 },
            BankAccountEvent::CustomerWithdrewCash { amount: 100, balance: 100 },
        ]
    );
}

#[test]
fn test_rejected_submit_leaves_log_untouched() {
    let services = BankAccountServices;
    let mut log = EventLog::new();

    let r = AggregateEngine::submit(
        &mut log,
        BankAccountCommand::WithdrawMoney { amount: 200 },
        &services,
    );
    assert_eq!(r.unwrap_err(), EngineError::Rejected(BankAccountError::InsufficientFunds));
    assert_eq!(log.version(), 0);
    assert_eq!(log.read(), vec![]);
}

#[test]
fn test_unsupported_command_never_appends() {
    let services = BankAccountServices;
    let mut log = EventLog::new();
    AggregateEngine::submit(&mut log, BankAccountCommand::DepositMoney { amount: 50 }, &services)
        .unwrap();

    let (state_before, version_before) = AggregateEngine::load(&log);
    let r = AggregateEngine::submit(
        &mut log,
        BankAccountCommand::WriteCheck { check_number: "1137".to_string(), amount: 10 },
        &services,
    );
    assert_eq!(r.unwrap_err(), EngineError::Rejected(BankAccountError::UnsupportedCommand));

    let (state_after, version_after) = AggregateEngine::load(&log);
    assert_eq!(version_after, version_before);
    assert_eq!(state_after, state_before);
}

#[test]
fn test_concurrent_submits_conflict_and_retry() {
    let services = BankAccountServices;
    let mut log = EventLog::new();

    // Two writers load the same state at the same version.
    let (mut first_state, first_version) = AggregateEngine::load(&log);
    let (mut second_state, second_version) = AggregateEngine::load(&log);
    assert_eq!(first_version, second_version);

    // Exactly one of the two commits.
    let first = AggregateEngine::submit_at(
        &mut log,
        &mut first_state,
        first_version,
        BankAccountCommand::DepositMoney { amount: 200 },
        &services,
    );
    assert!(first.is_ok());
    assert_eq!(first_state.balance(), 200);

    let second = AggregateEngine::submit_at(
        &mut log,
        &mut second_state,
        second_version,
        BankAccountCommand::DepositMoney { amount: 100 },
        &services,
    );
    assert_eq!(second.unwrap_err(), EngineError::ConcurrencyConflict);
    assert_eq!(log.version(), 1);

    // The loser retries against fresh state and succeeds.
    let retried = AggregateEngine::submit(
        &mut log,
        BankAccountCommand::DepositMoney { amount: 100 },
        &services,
    )
    .unwrap();
    assert_eq!(
        retried,
        vec![BankAccountEvent::CustomerDepositedMoney { amount: 100, balance: 300 }]
    );
    assert_eq!(log.version(), 2);
}

#[test]
fn test_conflicting_retry_can_be_rejected_by_business_rule() {
    let services = BankAccountServices;
    let mut log = EventLog::new();
    AggregateEngine::submit(&mut log, BankAccountCommand::DepositMoney { amount: 100 }, &services)
        .unwrap();

    // A writer decides from a stale snapshot of the empty log.
    let mut stale_state = BankAccount::default();
    let stale_version = 0;
    let r = AggregateEngine::submit_at(
        &mut log,
        &mut stale_state,
        stale_version,
        BankAccountCommand::DepositMoney { amount: 60 },
        &services,
    );
    assert_eq!(r.unwrap_err(), EngineError::ConcurrencyConflict);

    // After the conflict, a withdrawal beyond the true balance is refused
    // on retry by the business rule, not by the version check.
    let retried = AggregateEngine::submit(
        &mut log,
        BankAccountCommand::WithdrawMoney { amount: 150 },
        &services,
    );
    assert_eq!(retried.unwrap_err(), EngineError::Rejected(BankAccountError::InsufficientFunds));
    assert_eq!(log.version(), 1);
}

#[test]
fn test_append_version_check() {
    let mut log = EventLog::new();
    let batch = vec![BankAccountEvent::CustomerDepositedMoney { amount: 10, balance: 10 }];

    let conflict = log.append(3, &batch);
    assert!(conflict.is_err());
    assert_eq!(log.version(), 0);

    let committed = log.append(0, &batch);
    assert_eq!(committed.unwrap(), 1);
    assert_eq!(log.version(), 1);
    assert_eq!(log.read(), batch);
}
