//! The events that the engine consumes.

use crate::account::ClientId;
use vstd::prelude::*;

verus! {

/// Identifies one deposit or withdrawal; disputes, resolutions and chargebacks
/// refer to it.
pub type TransactionId = u32;

/// A sum of money as a fixed-point integer: the number of
/// `1 / AMOUNT_SCALE` parts of one currency unit.
pub type Amount = i64;

/// How many parts of an [`Amount`] make one currency unit (four decimal places).
pub const AMOUNT_SCALE: Amount = 10_000;

/// The five kinds of event.
#[derive(Clone, Copy, Debug, PartialEq, Eq, Structural)]
pub enum TransactionType {
    Deposit,
    Withdrawal,
    Dispute,
    Resolve,
    Chargeback,
}

/// One event of the input log.
///
/// `amount` is meaningful for deposits and withdrawals only; a deposit or
/// withdrawal without one is malformed and has no effect.
#[derive(Clone, Copy, Debug)]
pub struct Transaction {
    pub transaction_type: TransactionType,
    pub client_id: ClientId,
    pub transaction_id: TransactionId,
    pub amount: Option<Amount>,
}

} // verus!
