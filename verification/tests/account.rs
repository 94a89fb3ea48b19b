use ledger::account::Account;

#[test]
fn create_account() {
    let account = Account::new(42);
    assert_eq!(account.total, 42);
    assert_eq!(account.held, 0);
    assert_eq!(account.locked, false);
}

#[test]
fn available() {
    let mut account = Account::new(42);
    account.held = 32;
    assert_eq!(account.available(), 42 - 32);
}

#[test]
fn held() {
    let mut account = Account::new(42);
    account.held = 12;
    assert_eq!(account.held(), 12);
}

#[test]
fn total() {
    let mut account = Account::new(42);
    account.held = 12;
    assert_eq!(account.total(), 42);
}

#[test]
fn locked() {
    let mut account = Account::new(42);
    account.locked = true;
    assert_eq!(account.is_locked(), true);
}

#[test]
fn deposit_normal() {
    let mut account = Account::new(42);
    let res = account.deposit(12);
    assert_eq!(account.available(), 42 + 12);
    assert_eq!(account.total(), 42 + 12);
    assert_eq!(res, true);
}

#[test]
fn deposit_locked() {
    let mut account = Account::new(42);
    account.locked = true;
    let res = account.deposit(12);
    assert_eq!(account.available(), 42);
    assert_eq!(account.total(), 42);
    assert_eq!(res, false);
}

#[test]
fn withdraw_normal() {
    let mut account = Account::new(42);
    let res = account.withdraw(12);
    assert_eq!(account.available(), 42 - 12);
    assert_eq!(account.total(), 42 - 12);
    assert_eq!(res, true);
}

#[test]
fn withdraw_locked() {
    let mut account = Account::new(42);
    account.locked = true;
    let res = account.withdraw(12);
    assert_eq!(account.available(), 42);
    assert_eq!(account.total(), 42);
    assert_eq!(res, false);
}

#[test]
fn withdraw_insufficient_total_funds() {
    let mut account = Account::new(42);
    let res = account.withdraw(80);
    assert_eq!(account.available(), 42);
    assert_eq!(account.total(), 42);
    assert_eq!(res, false);
}

#[test]
fn withdraw_insufficient_available_funds() {
    let mut account = Account::new(42);
    account.held = 32;
    let res = account.withdraw(40);
    assert_eq!(account.available(), 42 - 32);
    assert_eq!(account.total(), 42);
    assert_eq!(res, false);
}

#[test]
fn dispute_normal() {
    let mut account = Account::new(42);
    let res = account.dispute(12);
    assert_eq!(account.available(), 30);
    assert_eq!(account.total(), 42);
    assert_eq!(res, true);
}

#[test]
fn dispute_insufficient_available_funds() {
    let mut account = Account::new(42);
    account.dispute(12);
    let res = account.dispute(42);
    assert_eq!(account.available(), 30);
    assert_eq!(account.total(), 42);
    assert_eq!(res, false);
}

#[test]
fn resolve_normal() {
    let mut account = Account::new(42);
    account.dispute(12);
    let res = account.resolve(8);
    assert_eq!(account.held(), 4);
    assert_eq!(res, true);
}

#[test]
fn resolve_insufficient_held_funds() {
    let mut account = Account::new(42);
    account.dispute(6);
    let res = account.resolve(10);
    assert_eq!(account.held(), 6);
    assert_eq!(res, false);
}

#[test]
fn chargeback_normal() {
    let mut account = Account::new(42);
    account.dispute(12);
    let res = account.chargeback(12);
    assert_eq!(account.is_locked(), true);
    assert_eq!(account.available(), 30);
    assert_eq!(account.total(), 30);
    assert_eq!(res, true);
}

#[test]
fn chargeback_insufficient_held_funds() {
    let mut account = Account::new(42);
    let res = account.chargeback(12);
    assert_eq!(account.is_locked(), false);
    assert_eq!(account.available(), 42);
    assert_eq!(account.total(), 42);
    assert_eq!(res, false);
}

#[test]
fn withdraw_exactly_available() {
    let mut account = Account::new(42);
    account.dispute(10);
    let res = account.withdraw(32);
    assert_eq!(res, true);
    assert_eq!(account.available(), 0);
    assert_eq!(account.total(), 10);
    assert_eq!(account.held(), 10);
}

#[test]
fn withdraw_one_over_available() {
    let mut account = Account::new(42);
    account.dispute(10);
    let res = account.withdraw(33);
    assert_eq!(res, false);
    assert_eq!(account.available(), 32);
    assert_eq!(account.total(), 42);
}

#[test]
fn deposit_saturates_at_max() {
    let mut account = Account::new(u64::MAX - 5);
    let res = account.deposit(10);
    assert_eq!(res, true);
    assert_eq!(account.total(), u64::MAX);
}
