//! The engine: it owns the accounts, one per client, creates each on the
//! first event that names its client, and hands every event to the account
//! of its client.

use crate::account::{BasicAccount, ClientAccount, ClientId};
use crate::state::AccountState;
use crate::transaction::{Transaction, TransactionType};
use std::collections::HashMap;
use vstd::prelude::*;

verus! {

broadcast use vstd::std_specs::hash::group_hash_axioms;

/// The account that an event for `client_id` acts on: the one on record, or
/// a fresh one where the client has none yet.
pub open spec fn account_for(
    ledger: Map<ClientId, AccountState>,
    client_id: ClientId,
) -> AccountState {
    if ledger.contains_key(client_id) {
        ledger[client_id]
    } else {
        AccountState::new(client_id)
    }
}

/// The accounts after `transaction`: the account of the client it names has
/// the event applied, and is on record from then on; no other account changes.
pub open spec fn ledger_after(
    ledger: Map<ClientId, AccountState>,
    transaction: Transaction,
) -> Map<ClientId, AccountState> {
    ledger.insert(
        transaction.client_id,
        account_for(ledger, transaction.client_id).apply(transaction),
    )
}

/// The accounts after a whole sequence of events, applied in order.
pub open spec fn ledger_replay(
    ledger: Map<ClientId, AccountState>,
    transactions: Seq<Transaction>,
) -> Map<ClientId, AccountState>
    decreases transactions.len(),
{
    if transactions.len() == 0 {
        ledger
    } else {
        ledger_after(ledger_replay(ledger, transactions.drop_last()), transactions.last())
    }
}

/// The events of `transactions` that name `client_id`, in their order.
pub open spec fn events_of(transactions: Seq<Transaction>, client_id: ClientId) -> Seq<
    Transaction,
> {
    transactions.filter(|transaction: Transaction| transaction.client_id == client_id)
}

/// Whether every account is on record under its own client id.
pub open spec fn keyed_by_client(ledger: Map<ClientId, AccountState>) -> bool {
    forall|client_id: ClientId| #[trigger]
        ledger.contains_key(client_id) ==> ledger[client_id].client_id == client_id
}

/// An event keeps every account under its own client id.
pub proof fn lemma_ledger_stays_keyed(ledger: Map<ClientId, AccountState>, transaction: Transaction)
    requires
        keyed_by_client(ledger),
    ensures
        keyed_by_client(ledger_after(ledger, transaction)),
{
}

/// Accounts are independent: after any sequence of events, the account of a
/// client is what the events that name this client, in their order, make of
/// the account it had before (or of a fresh one). Events of other clients
/// play no part.
pub proof fn lemma_accounts_are_independent(
    ledger: Map<ClientId, AccountState>,
    transactions: Seq<Transaction>,
    client_id: ClientId,
)
    ensures
        account_for(ledger_replay(ledger, transactions), client_id) == account_for(
            ledger,
            client_id,
        ).replay(events_of(transactions, client_id)),
    decreases transactions.len(),
{
    reveal(Seq::filter);
    if transactions.len() > 0 {
        let earlier = transactions.drop_last();
        lemma_accounts_are_independent(ledger, earlier, client_id);
        if transactions.last().client_id == client_id {
            assert(events_of(transactions, client_id).drop_last() == events_of(
                earlier,
                client_id,
            ));
        }
    }
}

/// The accounts of all clients seen so far. Its view maps each client id on
/// record to the state of that client's account.
pub struct TransactionEngine {
    accounts: HashMap<ClientId, BasicAccount>,
}

impl View for TransactionEngine {
    type V = Map<ClientId, AccountState>;

    closed spec fn view(&self) -> Map<ClientId, AccountState> {
        self.accounts@.map_values(|account: BasicAccount| account@)
    }
}

impl TransactionEngine {
    /// An engine without accounts.
    pub fn new() -> (engine: Self)
        ensures
            engine@ == Map::<ClientId, AccountState>::empty(),
            keyed_by_client(engine@),
    {
        Self { accounts: HashMap::new() }
    }

    /// The accounts on record, each under its client's id and in no
    /// particular order.
    pub fn accounts(&self) -> (accounts: &HashMap<ClientId, BasicAccount>)
        ensures
            accounts@.dom() == self@.dom(),
            forall|client_id: ClientId| #[trigger]
                accounts@.contains_key(client_id) ==> accounts@[client_id]@ == self@[client_id],
    {
        &self.accounts
    }

    /// Whether `execute` may be called with `transaction`: whether the
    /// account of the client it names, or a fresh one, accepts it.
    pub fn accepts(&self, transaction: &Transaction) -> (ok: bool)
        ensures
            ok == account_for(self@, transaction.client_id).accepts(*transaction),
    {
        match self.accounts.get(&transaction.client_id) {
            Some(account) => account.accepts(transaction),
            None => BasicAccount::new(transaction.client_id).accepts(transaction),
        }
    }

    /// Applies `transaction` to the account of the client it names, which is
    /// created first where the client has none. A deposit or withdrawal
    /// without an amount is dropped; the account is on record all the same.
    ///
    /// The balances that the event produces must fit an amount, which
    /// [`TransactionEngine::accepts`] tests.
    pub fn execute(&mut self, transaction: Transaction)
        requires
            account_for(old(self)@, transaction.client_id).accepts(transaction),
        ensures
            final(self)@ == ledger_after(old(self)@, transaction),
            keyed_by_client(old(self)@) ==> keyed_by_client(final(self)@),
    {
        let account = self.accounts.entry(transaction.client_id).or_insert(
            BasicAccount::new(transaction.client_id),
        );

        match transaction.transaction_type {
            TransactionType::Deposit => {
                if let Some(amount) = transaction.amount {
                    account.deposit(transaction.transaction_id, amount)
                }
            },
            TransactionType::Withdrawal => {
                if let Some(amount) = transaction.amount {
                    account.withdraw(transaction.transaction_id, amount)
                }
            },
            TransactionType::Dispute => account.dispute(transaction.transaction_id),
            TransactionType::Resolve => account.resolve(transaction.transaction_id),
            TransactionType::Chargeback => account.chargeback(transaction.transaction_id),
        }
    }
}

} // verus!
