//! The account as a mathematical value, and what each event does to it.
//!
//! Balances are unbounded integers here; the executable account requires of
//! each operation that the balances it produces fit an [`Amount`].

use crate::account::ClientId;
use crate::transaction::{Amount, Transaction, TransactionId, TransactionType};
use vstd::prelude::*;

verus! {

/// Whether `v` can be held in an [`Amount`].
pub open spec fn in_range(v: int) -> bool {
    Amount::MIN <= v <= Amount::MAX
}

/// The state of one account.
///
/// `open_entries` remembers, for each deposit or withdrawal that can still be
/// disputed, by how much it changed the available funds (a withdrawal is
/// stored negated). `disputed_entries` holds the same amount for each
/// transaction that is under dispute.
#[verifier::ext_equal]
pub struct AccountState {
    pub client_id: ClientId,
    pub available: int,
    pub held: int,
    pub locked: bool,
    pub open_entries: Map<TransactionId, int>,
    pub disputed_entries: Map<TransactionId, int>,
}

impl AccountState {
    /// A fresh account: nothing deposited, nothing remembered, not locked.
    pub open spec fn new(client_id: ClientId) -> AccountState {
        AccountState {
            client_id,
            available: 0,
            held: 0,
            locked: false,
            open_entries: Map::empty(),
            disputed_entries: Map::empty(),
        }
    }

    /// Available and held funds together.
    pub open spec fn total(self) -> int {
        self.available + self.held
    }

    /// Adds `amount` to the available funds and remembers it under `id`,
    /// replacing what was remembered there.
    pub open spec fn deposit(self, id: TransactionId, amount: int) -> AccountState {
        AccountState {
            available: self.available + amount,
            open_entries: self.open_entries.insert(id, amount),
            ..self
        }
    }

    /// Takes `amount` from the available funds and remembers `-amount` under
    /// `id`, if the available funds cover it; otherwise changes nothing.
    pub open spec fn withdraw(self, id: TransactionId, amount: int) -> AccountState {
        if self.available >= amount {
            AccountState {
                available: self.available - amount,
                open_entries: self.open_entries.insert(id, -amount),
                ..self
            }
        } else {
            self
        }
    }

    /// Moves the entry of `id` from the open to the disputed entries and its
    /// amount from the available to the held funds; changes nothing if `id`
    /// has no open entry.
    pub open spec fn dispute(self, id: TransactionId) -> AccountState {
        if self.open_entries.contains_key(id) {
            let amount = self.open_entries[id];
            AccountState {
                available: self.available - amount,
                held: self.held + amount,
                open_entries: self.open_entries.remove(id),
                disputed_entries: self.disputed_entries.insert(id, amount),
                ..self
            }
        } else {
            self
        }
    }

    /// Ends the dispute of `id` in the client's favour: forgets the entry and
    /// moves its amount back from the held to the available funds; changes
    /// nothing if `id` is not under dispute.
    pub open spec fn resolve(self, id: TransactionId) -> AccountState {
        if self.disputed_entries.contains_key(id) {
            let amount = self.disputed_entries[id];
            AccountState {
                available: self.available + amount,
                held: self.held - amount,
                disputed_entries: self.disputed_entries.remove(id),
                ..self
            }
        } else {
            self
        }
    }

    /// Ends the dispute of `id` by reversing the transaction: forgets the
    /// entry, releases its amount from the held funds and locks the account;
    /// changes nothing if `id` is not under dispute.
    pub open spec fn chargeback(self, id: TransactionId) -> AccountState {
        if self.disputed_entries.contains_key(id) {
            let amount = self.disputed_entries[id];
            AccountState {
                held: self.held - amount,
                locked: true,
                disputed_entries: self.disputed_entries.remove(id),
                ..self
            }
        } else {
            self
        }
    }

    /// Whether the balances after `deposit` fit an [`Amount`].
    pub open spec fn deposit_fits(self, amount: int) -> bool {
        in_range(self.available + amount)
    }

    /// Whether the balance and the entry after `withdraw` fit an [`Amount`].
    pub open spec fn withdraw_fits(self, amount: int) -> bool {
        self.available >= amount ==> in_range(self.available - amount) && in_range(-amount)
    }

    /// Whether the balances after `dispute` fit an [`Amount`].
    pub open spec fn dispute_fits(self, id: TransactionId) -> bool {
        self.open_entries.contains_key(id) ==> {
            &&& in_range(self.available - self.open_entries[id])
            &&& in_range(self.held + self.open_entries[id])
        }
    }

    /// Whether the balances after `resolve` fit an [`Amount`].
    pub open spec fn resolve_fits(self, id: TransactionId) -> bool {
        self.disputed_entries.contains_key(id) ==> {
            &&& in_range(self.available + self.disputed_entries[id])
            &&& in_range(self.held - self.disputed_entries[id])
        }
    }

    /// Whether the held funds after `chargeback` fit an [`Amount`].
    pub open spec fn chargeback_fits(self, id: TransactionId) -> bool {
        self.disputed_entries.contains_key(id) ==> in_range(
            self.held - self.disputed_entries[id],
        )
    }

    /// Whether both balances and every remembered amount fit an [`Amount`]:
    /// whether an executable account can hold this state.
    pub open spec fn representable(self) -> bool {
        &&& in_range(self.available)
        &&& in_range(self.held)
        &&& forall|id: TransactionId| #[trigger]
            self.open_entries.contains_key(id) ==> in_range(self.open_entries[id])
        &&& forall|id: TransactionId| #[trigger]
            self.disputed_entries.contains_key(id) ==> in_range(self.disputed_entries[id])
    }

    /// What `transaction` does to the account, whichever client it names:
    /// the operation of its kind, or nothing where a deposit or withdrawal
    /// carries no amount.
    pub open spec fn apply(self, transaction: Transaction) -> AccountState {
        match transaction.transaction_type {
            TransactionType::Deposit => match transaction.amount {
                Some(amount) => self.deposit(transaction.transaction_id, amount as int),
                None => self,
            },
            TransactionType::Withdrawal => match transaction.amount {
                Some(amount) => self.withdraw(transaction.transaction_id, amount as int),
                None => self,
            },
            TransactionType::Dispute => self.dispute(transaction.transaction_id),
            TransactionType::Resolve => self.resolve(transaction.transaction_id),
            TransactionType::Chargeback => self.chargeback(transaction.transaction_id),
        }
    }

    /// Whether what `apply` produces for `transaction` fits an [`Amount`].
    pub open spec fn accepts(self, transaction: Transaction) -> bool {
        match transaction.transaction_type {
            TransactionType::Deposit => match transaction.amount {
                Some(amount) => self.deposit_fits(amount as int),
                None => true,
            },
            TransactionType::Withdrawal => match transaction.amount {
                Some(amount) => self.withdraw_fits(amount as int),
                None => true,
            },
            TransactionType::Dispute => self.dispute_fits(transaction.transaction_id),
            TransactionType::Resolve => self.resolve_fits(transaction.transaction_id),
            TransactionType::Chargeback => self.chargeback_fits(transaction.transaction_id),
        }
    }

    /// The account after a whole sequence of events, applied in order.
    pub open spec fn replay(self, transactions: Seq<Transaction>) -> AccountState
        decreases transactions.len(),
    {
        if transactions.len() == 0 {
            self
        } else {
            self.replay(transactions.drop_last()).apply(transactions.last())
        }
    }

    /// Whether no transaction has an open and a disputed entry at once.
    pub open spec fn entries_disjoint(self) -> bool {
        forall|id: TransactionId|
            !(#[trigger] self.open_entries.contains_key(id) && self.disputed_entries.contains_key(
                id,
            ))
    }
}

/// An account that can be held accepts exactly the events after which it can
/// still be held: `accepts` asks for what the range of an [`Amount`] forces,
/// and for nothing else.
pub proof fn lemma_accepts_what_stays_representable(s: AccountState, transaction: Transaction)
    requires
        s.representable(),
    ensures
        s.accepts(transaction) <==> s.apply(transaction).representable(),
{
    // A withdrawal is recorded negated, and the negation must fit too: the
    // entry under the event's id is the one to look at.
    let after = s.apply(transaction);
    let id = transaction.transaction_id;
    if after.representable() {
        assert(after.open_entries.contains_key(id) ==> in_range(after.open_entries[id]));
    }
}

/// After every event of any sequence applied to an account, the total is the
/// sum of the available and the held funds.
pub proof fn lemma_total_is_sum_after_every_event(
    start: AccountState,
    transactions: Seq<Transaction>,
    n: int,
)
    requires
        0 <= n <= transactions.len(),
    ensures
        start.replay(transactions.take(n)).total() == start.replay(
            transactions.take(n),
        ).available + start.replay(transactions.take(n)).held,
{
}

/// A deposit leaves an open entry of its amount under its id, and so does a
/// withdrawal that the available funds cover, of its amount negated.
pub proof fn lemma_deposit_and_withdrawal_are_remembered(
    s: AccountState,
    id: TransactionId,
    amount: int,
)
    ensures
        s.deposit(id, amount).open_entries.contains_key(id),
        s.deposit(id, amount).open_entries[id] == amount,
        s.available >= amount ==> s.withdraw(id, amount).open_entries.contains_key(id),
        s.available >= amount ==> s.withdraw(id, amount).open_entries[id] == -amount,
{
}

/// Depositing an amount and then withdrawing the same amount brings the
/// available funds back to what they were and leaves the held funds alone,
/// as long as the available funds were not negative to begin with (out of
/// negative funds the withdrawal is not covered, and dropped).
pub proof fn lemma_deposit_then_withdraw(
    s: AccountState,
    deposit_id: TransactionId,
    withdrawal_id: TransactionId,
    amount: int,
)
    requires
        s.available >= 0,
    ensures
        s.deposit(deposit_id, amount).withdraw(withdrawal_id, amount).available == s.available,
        s.deposit(deposit_id, amount).withdraw(withdrawal_id, amount).held == s.held,
{
}

/// Disputing a transaction remembered with `amount` (a deposit of `amount`)
/// moves `amount` from the available to the held funds; resolving the dispute
/// afterwards moves it back, so that both balances are what they were before
/// the dispute.
pub proof fn lemma_dispute_then_resolve(s: AccountState, id: TransactionId, amount: int)
    requires
        s.open_entries.contains_key(id),
        s.open_entries[id] == amount,
    ensures
        s.dispute(id).available == s.available - amount,
        s.dispute(id).held == s.held + amount,
        s.dispute(id).resolve(id).available == s.available,
        s.dispute(id).resolve(id).held == s.held,
{
}

/// Disputing the same transaction twice is the same as disputing it once.
pub proof fn lemma_dispute_is_idempotent(s: AccountState, id: TransactionId)
    ensures
        s.dispute(id).dispute(id) == s.dispute(id),
{
}

/// A chargeback that follows the dispute of a transaction remembered with
/// `amount` takes `amount` out of the held funds and locks the account; the
/// chargeback itself leaves the available funds alone.
pub proof fn lemma_chargeback_after_dispute(s: AccountState, id: TransactionId, amount: int)
    requires
        s.open_entries.contains_key(id),
        s.open_entries[id] == amount,
    ensures
        s.dispute(id).chargeback(id).held == s.dispute(id).held - amount,
        s.dispute(id).chargeback(id).locked,
        s.dispute(id).chargeback(id).available == s.dispute(id).available,
{
}

/// A withdrawal of more than the available funds changes nothing: neither
/// balance moves and no entry is recorded, so that a dispute of an id that
/// was unknown before still finds nothing.
pub proof fn lemma_uncovered_withdrawal_changes_nothing(
    s: AccountState,
    id: TransactionId,
    amount: int,
)
    requires
        amount > s.available,
    ensures
        s.withdraw(id, amount) == s,
        !s.open_entries.contains_key(id) ==> s.withdraw(id, amount).dispute(id) == s,
{
}

/// An event that refers to a transaction in the wrong state changes nothing:
/// a dispute of a transaction without an open entry (unknown, under dispute
/// already, or settled), a resolution or chargeback of one that is not under
/// dispute.
pub proof fn lemma_missed_reference_changes_nothing(s: AccountState, id: TransactionId)
    ensures
        !s.open_entries.contains_key(id) ==> s.dispute(id) == s,
        !s.disputed_entries.contains_key(id) ==> s.resolve(id) == s,
        !s.disputed_entries.contains_key(id) ==> s.chargeback(id) == s,
{
}

/// An event without an amount changes no balance and records nothing, if it
/// is a deposit or a withdrawal.
pub proof fn lemma_missing_amount_changes_nothing(s: AccountState, transaction: Transaction)
    requires
        transaction.amount is None,
        transaction.transaction_type == TransactionType::Deposit || transaction.transaction_type
            == TransactionType::Withdrawal,
    ensures
        s.apply(transaction) == s,
{
}

/// Once a dispute has been resolved or charged back, the transaction is
/// forgotten: no further dispute, resolution or chargeback of it has any
/// effect.
pub proof fn lemma_settled_dispute_is_final(s: AccountState, id: TransactionId)
    requires
        s.entries_disjoint(),
        s.disputed_entries.contains_key(id),
    ensures
        s.resolve(id).dispute(id) == s.resolve(id),
        s.resolve(id).resolve(id) == s.resolve(id),
        s.resolve(id).chargeback(id) == s.resolve(id),
        s.chargeback(id).dispute(id) == s.chargeback(id),
        s.chargeback(id).resolve(id) == s.chargeback(id),
        s.chargeback(id).chargeback(id) == s.chargeback(id),
{
}

/// No event makes a transaction both open and disputed, as long as a deposit
/// or withdrawal does not reuse the id of a transaction that is under dispute.
pub proof fn lemma_entries_stay_disjoint(s: AccountState, transaction: Transaction)
    requires
        s.entries_disjoint(),
        transaction.transaction_type == TransactionType::Deposit || transaction.transaction_type
            == TransactionType::Withdrawal ==> !s.disputed_entries.contains_key(
            transaction.transaction_id,
        ),
    ensures
        s.apply(transaction).entries_disjoint(),
{
}

/// No event changes whose account it is, and none unlocks a locked account.
pub proof fn lemma_identity_and_lock_are_kept(s: AccountState, transaction: Transaction)
    ensures
        s.apply(transaction).client_id == s.client_id,
        s.locked ==> s.apply(transaction).locked,
{
}

} // verus!
