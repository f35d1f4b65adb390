use ledger_engine::account::{BasicAccount, ClientAccount};
use ledger_engine::transaction::{Amount, Transaction, TransactionType};

fn event(transaction_type: TransactionType, transaction_id: u32, amount: Option<Amount>) -> Transaction {
    Transaction { transaction_type, client_id: 0, transaction_id, amount }
}

#[test]
fn deposit_is_accepted_up_to_the_largest_amount() {
    let mut account = BasicAccount::new(0);
    account.deposit(0, Amount::MAX - 10);

    assert!(account.accepts(&event(TransactionType::Deposit, 1, Some(10))));
    assert!(!account.accepts(&event(TransactionType::Deposit, 1, Some(11))));
    assert!(account.accepts(&event(TransactionType::Deposit, 1, None)));
}

#[test]
fn withdrawal_is_accepted_when_dropped_or_in_range() {
    let mut account = BasicAccount::new(0);
    account.deposit(0, 10);

    assert!(account.accepts(&event(TransactionType::Withdrawal, 1, Some(10))));
    assert!(account.accepts(&event(TransactionType::Withdrawal, 1, Some(11))));
    assert!(account.accepts(&event(TransactionType::Withdrawal, 1, Some(Amount::MAX))));
    assert!(account.accepts(&event(TransactionType::Withdrawal, 1, Some(10 - Amount::MAX))));
    assert!(!account.accepts(&event(TransactionType::Withdrawal, 1, Some(9 - Amount::MAX))));
    assert!(!account.accepts(&event(TransactionType::Withdrawal, 1, Some(Amount::MIN))));
    assert!(account.accepts(&event(TransactionType::Withdrawal, 1, None)));
}

#[test]
fn withdrawal_of_the_smallest_amount_is_never_recorded() {
    let mut account = BasicAccount::new(0);
    account.deposit(0, -1);

    assert!(!account.accepts(&event(TransactionType::Withdrawal, 1, Some(Amount::MIN))));
    assert!(account.accepts(&event(TransactionType::Withdrawal, 1, Some(0))));
}

#[test]
fn dispute_is_accepted_unless_a_balance_overflows() {
    let mut account = BasicAccount::new(0);
    account.deposit(0, Amount::MAX);
    account.dispute(0);
    account.deposit(1, 1);

    assert!(account.accepts(&event(TransactionType::Dispute, 0, None)));
    assert!(account.accepts(&event(TransactionType::Dispute, 7, None)));
    assert!(!account.accepts(&event(TransactionType::Dispute, 1, None)));

    account.deposit(2, -5);
    assert!(!account.accepts(&event(TransactionType::Dispute, 1, None)));
    assert!(account.accepts(&event(TransactionType::Dispute, 2, None)));
}

#[test]
fn resolve_is_accepted_unless_a_balance_overflows() {
    let mut account = BasicAccount::new(0);
    account.deposit(0, Amount::MAX);
    account.dispute(0);
    account.deposit(1, 1);

    assert!(!account.accepts(&event(TransactionType::Resolve, 0, None)));
    assert!(account.accepts(&event(TransactionType::Resolve, 1, None)));

    account.withdraw(2, 1);
    assert!(account.accepts(&event(TransactionType::Resolve, 0, None)));
}

#[test]
fn chargeback_is_accepted_unless_the_held_funds_overflow() {
    let mut account = BasicAccount::new(0);
    account.deposit(0, Amount::MAX);
    account.dispute(0);
    account.deposit(1, -5);
    account.dispute(1);
    account.deposit(2, 3);
    account.dispute(2);
    assert_eq!(account.get_available_funds(), 0);
    assert_eq!(account.get_held_funds(), Amount::MAX - 2);

    assert!(!account.accepts(&event(TransactionType::Chargeback, 1, None)));
    assert!(!account.accepts(&event(TransactionType::Resolve, 1, None)));
    assert!(account.accepts(&event(TransactionType::Chargeback, 2, None)));
    assert!(account.accepts(&event(TransactionType::Chargeback, 0, None)));
    assert!(account.accepts(&event(TransactionType::Chargeback, 9, None)));
}
