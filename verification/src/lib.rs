//! A ledger engine: it replays deposits, withdrawals, disputes, resolutions and
//! chargebacks against one account per client and exposes the final balances.
//!
//! Amounts are fixed-point integers (see [`transaction::Amount`]). Every
//! operation is specified against [`state::AccountState`], the account as a
//! mathematical value.

pub mod account;
pub mod engine;
pub mod state;
pub mod transaction;
