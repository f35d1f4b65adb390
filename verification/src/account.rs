//! One client's account: its balances, and what it remembers of its deposits
//! and withdrawals in order to serve later disputes.

use crate::state::AccountState;
use crate::transaction::{Amount, Transaction, TransactionId, TransactionType};
use std::collections::HashMap;
use vstd::prelude::*;

verus! {

broadcast use vstd::std_specs::hash::group_hash_axioms;

/// Identifies a client, and thereby an account.
pub type ClientId = u16;

/// The operations on a client's account.
///
/// None of them reports a failure: an operation that does not apply (a
/// withdrawal that the available funds do not cover, a dispute of an unknown
/// transaction) leaves the account as it was.
///
/// The view of an account is its [`AccountState`], and every operation is the
/// transition of the same name on it. Balances are [`Amount`]s, so each
/// operation requires that the balances it produces fit one.
pub trait ClientAccount: View<V = AccountState> {
    /// Adds `amount` to the available funds and remembers the deposit, so
    /// that it can be disputed.
    fn deposit(&mut self, transaction_id: TransactionId, amount: Amount)
        requires
            old(self)@.deposit_fits(amount as int),
        ensures
            final(self)@ == old(self)@.deposit(transaction_id, amount as int),
    ;

    /// Takes `amount` from the available funds and remembers the withdrawal,
    /// so that it can be disputed. Does nothing if there are not enough
    /// available funds.
    fn withdraw(&mut self, transaction_id: TransactionId, amount: Amount)
        requires
            old(self)@.withdraw_fits(amount as int),
        ensures
            final(self)@ == old(self)@.withdraw(transaction_id, amount as int),
    ;

    /// Puts a remembered deposit or withdrawal under dispute: what it added
    /// to the available funds is held instead. Does nothing if the
    /// transaction is unknown, under dispute already, or settled.
    fn dispute(&mut self, transaction_id: TransactionId)
        requires
            old(self)@.dispute_fits(transaction_id),
        ensures
            final(self)@ == old(self)@.dispute(transaction_id),
    ;

    /// Ends a dispute by releasing the held amount to the available funds.
    /// Does nothing if the transaction is not under dispute.
    fn resolve(&mut self, transaction_id: TransactionId)
        requires
            old(self)@.resolve_fits(transaction_id),
        ensures
            final(self)@ == old(self)@.resolve(transaction_id),
    ;

    /// Ends a dispute by withdrawing the held amount for good, and locks the
    /// account. Does nothing if the transaction is not under dispute.
    fn chargeback(&mut self, transaction_id: TransactionId)
        requires
            old(self)@.chargeback_fits(transaction_id),
        ensures
            final(self)@ == old(self)@.chargeback(transaction_id),
    ;

    fn get_client_id(&self) -> (client_id: ClientId)
        ensures
            client_id == self@.client_id,
    ;

    /// Total funds are the available and the held funds together. They come
    /// as a wider integer, as the sum of two amounts need not fit an amount.
    fn get_total_funds(&self) -> (total: i128)
        ensures
            total == self@.total(),
    ;

    fn get_available_funds(&self) -> (available: Amount)
        ensures
            available == self@.available,
    ;

    fn get_held_funds(&self) -> (held: Amount)
        ensures
            held == self@.held,
    ;

    fn is_locked(&self) -> (locked: bool)
        ensures
            locked == self@.locked,
    ;
}

/// The account that the engine keeps for each client.
#[derive(Debug)]
pub struct BasicAccount {
    client_id: ClientId,
    available: Amount,
    held: Amount,
    locked: bool,
    /// For each deposit and withdrawal that can still be disputed, the amount
    /// by which it changed the available funds (negative for a withdrawal).
    /// This serves disputes; it is no history of all transactions.
    transaction_log: HashMap<TransactionId, Amount>,
    /// For each transaction under dispute, the amount in dispute, until the
    /// dispute is resolved or charged back.
    active_disputes: HashMap<TransactionId, Amount>,
}

impl View for BasicAccount {
    type V = AccountState;

    closed spec fn view(&self) -> AccountState {
        AccountState {
            client_id: self.client_id,
            available: self.available as int,
            held: self.held as int,
            locked: self.locked,
            open_entries: self.transaction_log@.map_values(|amount: Amount| amount as int),
            disputed_entries: self.active_disputes@.map_values(|amount: Amount| amount as int),
        }
    }
}

impl BasicAccount {
    /// A fresh account for `client_id`: no funds, nothing remembered, not
    /// locked.
    pub fn new(client_id: ClientId) -> (account: Self)
        ensures
            account@ == AccountState::new(client_id),
    {
        BasicAccount {
            client_id,
            available: 0,
            held: 0,
            locked: false,
            transaction_log: HashMap::new(),
            active_disputes: HashMap::new(),
        }
    }

    /// What an account holds always fits an [`Amount`].
    pub proof fn lemma_view_is_representable(&self)
        ensures
            self@.representable(),
    {
    }

    /// Whether `transaction` can be applied to this account with every
    /// balance still fitting an [`Amount`]: what the operation of its kind
    /// requires. An event that would change nothing is always accepted.
    pub fn accepts(&self, transaction: &Transaction) -> (ok: bool)
        ensures
            ok == self@.accepts(*transaction),
    {
        match transaction.transaction_type {
            TransactionType::Deposit => match transaction.amount {
                Some(amount) => self.available.checked_add(amount).is_some(),
                None => true,
            },
            TransactionType::Withdrawal => match transaction.amount {
                Some(amount) => self.available < amount || (amount != Amount::MIN
                    && self.available.checked_sub(amount).is_some()),
                None => true,
            },
            TransactionType::Dispute => match self.transaction_log.get(
                &transaction.transaction_id,
            ) {
                Some(amount) => self.available.checked_sub(*amount).is_some()
                    && self.held.checked_add(*amount).is_some(),
                None => true,
            },
            TransactionType::Resolve => match self.active_disputes.get(
                &transaction.transaction_id,
            ) {
                Some(amount) => self.available.checked_add(*amount).is_some()
                    && self.held.checked_sub(*amount).is_some(),
                None => true,
            },
            TransactionType::Chargeback => match self.active_disputes.get(
                &transaction.transaction_id,
            ) {
                Some(amount) => self.held.checked_sub(*amount).is_some(),
                None => true,
            },
        }
    }
}

impl ClientAccount for BasicAccount {
    fn deposit(&mut self, transaction_id: TransactionId, amount: Amount) {
        self.available += amount;
        self.transaction_log.insert(transaction_id, amount);
    }

    fn withdraw(&mut self, transaction_id: TransactionId, amount: Amount) {
        if self.available >= amount {
            self.available -= amount;
            // A dispute reverses the transaction, so what is remembered is
            // the change of the available funds. Disputing a withdrawal
            // therefore makes the held funds go down, possibly below zero.
            self.transaction_log.insert(transaction_id, -amount);
        }
    }

    fn dispute(&mut self, transaction_id: TransactionId) {
        // Taken out of the log, the transaction cannot be disputed twice.
        if let Some(amount) = self.transaction_log.remove(&transaction_id) {
            self.active_disputes.insert(transaction_id, amount);
            self.available -= amount;
            self.held += amount;
        }
    }

    fn resolve(&mut self, transaction_id: TransactionId) {
        if let Some(amount) = self.active_disputes.remove(&transaction_id) {
            self.held -= amount;
            self.available += amount;
        }
    }

    fn chargeback(&mut self, transaction_id: TransactionId) {
        if let Some(amount) = self.active_disputes.remove(&transaction_id) {
            self.held -= amount;
            self.locked = true;
        }
    }

    fn get_client_id(&self) -> (client_id: ClientId) {
        self.client_id
    }

    fn get_total_funds(&self) -> (total: i128) {
        self.available as i128 + self.held as i128
    }

    fn get_available_funds(&self) -> (available: Amount) {
        self.available
    }

    fn get_held_funds(&self) -> (held: Amount) {
        self.held
    }

    fn is_locked(&self) -> (locked: bool) {
        self.locked
    }
}

} // verus!
