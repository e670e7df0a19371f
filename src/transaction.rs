//! Incoming records and the entries of the transaction log.
use vstd::prelude::*;

use crate::account::{ClientId, TransactionId};
use crate::funds::Funds;

verus! {

/// The five kinds of record.
#[derive(Clone, Copy, Debug, PartialEq, Eq, Structural)]
pub enum TransactionType {
    Deposit,
    Withdrawal,
    Dispute,
    Resolve,
    Chargeback,
}

/// One incoming record. `amount` is present for deposits and withdrawals
/// and absent for the other kinds.
#[derive(Clone, Copy, Debug, PartialEq, Eq, Structural)]
pub struct Transaction {
    pub typ: TransactionType,
    pub client: ClientId,
    pub tx: TransactionId,
    pub amount: Option<Funds>,
}

/// Where a logged deposit or withdrawal stands in the dispute workflow.
#[derive(Clone, Copy, Debug, PartialEq, Eq, Structural)]
pub enum TxStatus {
    /// Not under dispute: a dispute may be opened.
    Posted,
    /// Under dispute: a resolve or a chargeback may close it.
    Disputed,
    /// Charged back: no further dispute, resolve or chargeback applies.
    ChargedBack,
}

/// A logged deposit or withdrawal.
#[derive(Clone, Copy, Debug, PartialEq, Eq, Structural)]
pub struct LoggedTransaction {
    pub client: ClientId,
    pub amount: Option<Funds>,
    pub status: TxStatus,
}

} // verus!
