//! Unit tests of the service's components: the custody ledger, the balances
//! store with its atomic transfer, and the bounded audit log.

use custody_ledger::audit::AuditLog;
use custody_ledger::audit::AuditRecord;
use custody_ledger::balances::Balances;
use custody_ledger::custody::CustodyAccount;
use custody_ledger::errors::DepositError;

#[test]
fn custody_starts_at_zero_and_credits_add_up() {
    let mut account = CustodyAccount::initialize();
    assert_eq!(account.total_deposits, 0);
    assert_eq!(account.credit(40), Ok(()));
    assert_eq!(account.credit(2), Ok(()));
    assert_eq!(account.total_deposits, 42);
}

#[test]
fn credit_at_the_64_bit_boundary() {
    let mut account = CustodyAccount::initialize();
    assert_eq!(account.credit(u64::MAX - 1), Ok(()));
    assert_eq!(account.credit(1), Ok(()));
    assert_eq!(account.total_deposits, u64::MAX);

    assert_eq!(account.credit(1), Err(DepositError::Overflow));
    assert_eq!(account.total_deposits, u64::MAX);
}

#[test]
fn balances_start_empty_and_can_be_funded() {
    let mut ledger = Balances::new();
    assert_eq!(ledger.balance(1), 0);
    ledger.set_balance(1, 75);
    assert_eq!(ledger.balance(1), 75);
    assert_eq!(ledger.balance(2), 0);
}

#[test]
fn transfer_moves_value_between_principals() {
    let mut ledger = Balances::new();
    ledger.set_balance(1, 100);
    assert_eq!(ledger.transfer(1, 2, 60), Ok(()));
    assert_eq!(ledger.balance(1), 40);
    assert_eq!(ledger.balance(2), 60);
}

#[test]
fn transfer_to_oneself_changes_nothing() {
    let mut ledger = Balances::new();
    ledger.set_balance(1, 100);
    assert_eq!(ledger.transfer(1, 1, 100), Ok(()));
    assert_eq!(ledger.balance(1), 100);
}

#[test]
fn transfer_without_cover_fails_unchanged() {
    let mut ledger = Balances::new();
    ledger.set_balance(1, 5);
    assert_eq!(
        ledger.transfer(1, 2, 6),
        Err(DepositError::InsufficientFunds)
    );
    assert_eq!(ledger.balance(1), 5);
    assert_eq!(ledger.balance(2), 0);
}

#[test]
fn transfer_that_would_wrap_the_recipient_fails_unchanged() {
    let mut ledger = Balances::new();
    ledger.set_balance(1, 10);
    ledger.set_balance(2, u64::MAX);
    assert_eq!(ledger.transfer(1, 2, 1), Err(DepositError::Overflow));
    assert_eq!(ledger.balance(1), 10);
    assert_eq!(ledger.balance(2), u64::MAX);
}

#[test]
fn audit_log_numbers_records_in_append_order() {
    let mut log = AuditLog::new(3);
    assert_eq!(log.len(), 0);
    assert_eq!(log.max_records(), 3);

    let first = AuditRecord { from: 1, to: 2, amount: 10 };
    let second = AuditRecord { from: 3, to: 4, amount: 20 };
    assert_eq!(log.append(first), Ok(0));
    assert_eq!(log.append(second), Ok(1));

    assert_eq!(log.len(), 2);
    assert_eq!(log.record_at(0), first);
    assert_eq!(log.record_at(1), second);
    assert_eq!(log.last(), second);
}

#[test]
fn audit_log_at_capacity_rejects_the_record_whole() {
    let mut log = AuditLog::new(1);
    let first = AuditRecord { from: 1, to: 2, amount: 10 };
    let second = AuditRecord { from: 3, to: 4, amount: 20 };
    assert_eq!(log.append(first), Ok(0));
    assert_eq!(log.append(second), Err(DepositError::AuditAppendFailed));
    assert_eq!(log.len(), 1);
    assert_eq!(log.last(), first);
}

#[test]
fn audit_log_with_zero_capacity_accepts_nothing() {
    let mut log = AuditLog::new(0);
    let record = AuditRecord { from: 1, to: 2, amount: 10 };
    assert_eq!(log.append(record), Err(DepositError::AuditAppendFailed));
    assert_eq!(log.len(), 0);
}
