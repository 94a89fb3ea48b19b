use ledger::common_types::Transaction;
use std::collections::hash_map::DefaultHasher;
use std::hash::{Hash, Hasher};

#[test]
fn hash_test() {
    let tx1 = Transaction::Deposit(1, 1, 1);
    let tx2 = Transaction::Dispute(1, 1);

    let mut hasher1 = DefaultHasher::new();
    let mut hasher2 = DefaultHasher::new();
    tx1.hash(&mut hasher1);
    tx2.hash(&mut hasher2);
    assert_eq!(hasher1.finish(), hasher2.finish());
}

#[test]
fn eq_test() {
    let tx1 = Transaction::Deposit(1, 1, 1);
    let tx2 = Transaction::Dispute(1, 1);

    assert_eq!(tx1, tx2);
}

#[test]
fn getters() {
    let deposit = Transaction::Deposit(7, 3, 10);
    assert_eq!(deposit.get_transaction_id(), 7);
    assert_eq!(deposit.get_client_id(), 3);
    assert_eq!(deposit.get_amount(), Some(10));

    let withdrawal = Transaction::Withdrawal(8, 4, 11);
    assert_eq!(withdrawal.get_transaction_id(), 8);
    assert_eq!(withdrawal.get_client_id(), 4);
    assert_eq!(withdrawal.get_amount(), Some(11));

    let dispute = Transaction::Dispute(9, 5);
    assert_eq!(dispute.get_transaction_id(), 9);
    assert_eq!(dispute.get_client_id(), 5);
    assert_eq!(dispute.get_amount(), None);

    let any = Transaction::Any(12);
    assert_eq!(any.get_transaction_id(), 12);
    assert_eq!(any.get_amount(), None);
}

#[test]
fn event_of_row_kinds() {
    let e = Transaction::event_of_row(&"deposit".to_string(), 1, 2, Some(30));
    assert!(matches!(e, Some(Transaction::Deposit(1, 2, 30))));

    let e = Transaction::event_of_row(&"withdrawal".to_string(), 1, 2, Some(30));
    assert!(matches!(e, Some(Transaction::Withdrawal(1, 2, 30))));

    let e = Transaction::event_of_row(&"dispute".to_string(), 1, 2, None);
    assert!(matches!(e, Some(Transaction::Dispute(1, 2))));

    let e = Transaction::event_of_row(&"resolve".to_string(), 1, 2, None);
    assert!(matches!(e, Some(Transaction::Resolve(1, 2))));

    let e = Transaction::event_of_row(&"chargeback".to_string(), 1, 2, None);
    assert!(matches!(e, Some(Transaction::Chargeback(1, 2))));
}

#[test]
fn event_of_row_rejects() {
    assert!(Transaction::event_of_row(&"deposit".to_string(), 1, 2, None).is_none());
    assert!(Transaction::event_of_row(&"withdrawal".to_string(), 1, 2, None).is_none());
    assert!(Transaction::event_of_row(&"transfer".to_string(), 1, 2, Some(30)).is_none());
    assert!(Transaction::event_of_row(&"".to_string(), 1, 2, Some(30)).is_none());
}
