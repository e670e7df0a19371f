//! Properties of the ledger that hold for every record and every state.
use vstd::prelude::*;

use crate::account::{ClientAccount, ClientId, ProcessingError, TransactionId};
use crate::funds::Funds;
use crate::repository::{accounts_wf, step};
use crate::transaction::{LoggedTransaction, Transaction, TransactionType, TxStatus};

verus! {

/// The accounts and log after applying `records` in order to an empty ledger.
pub open spec fn replay(records: Seq<Transaction>) -> (Map<ClientId, ClientAccount>, Map<TransactionId, LoggedTransaction>)
    decreases records.len(),
{
    if records.len() == 0 {
        (Map::empty(), Map::empty())
    } else {
        let (clients, log) = replay(records.drop_last());
        let next = step(clients, log, records.last());
        (next.1, next.2)
    }
}

/// Every transition that succeeds keeps the balances consistent and the
/// client id of the account.
proof fn lemma_transitions_keep_balances(acc: ClientAccount, amount: Option<Funds>)
    requires
        acc.wf(),
    ensures
        acc.deposited(amount) matches Ok(a) ==> a.wf() && a.client == acc.client,
        acc.withdrawn(amount) matches Ok(a) ==> a.wf() && a.client == acc.client,
        acc.disputed(amount) matches Ok(a) ==> a.wf() && a.client == acc.client,
        acc.resolved(amount) matches Ok(a) ==> a.wf() && a.client == acc.client,
        acc.charged_back(amount) matches Ok(a) ==> a.wf() && a.client == acc.client,
{
}

/// Applying any record to accounts whose balances agree
/// (`total == available + held`) leaves every account's balances agreeing.
pub proof fn law_balances_stay_consistent(
    clients: Map<ClientId, ClientAccount>,
    log: Map<TransactionId, LoggedTransaction>,
    t: Transaction,
)
    requires
        accounts_wf(clients),
    ensures
        accounts_wf(step(clients, log, t).1),
{
    let fresh = ClientAccount::fresh(t.client);
    lemma_transitions_keep_balances(fresh, t.amount);
    if clients.contains_key(t.client) {
        let acc = clients[t.client];
        lemma_transitions_keep_balances(acc, t.amount);
        if log.contains_key(t.tx) {
            lemma_transitions_keep_balances(acc, log[t.tx].amount);
        }
    }
}

/// In every state reached from an empty ledger, every account has
/// `total == available + held`, exactly.
pub proof fn law_reachable_balances_consistent(records: Seq<Transaction>)
    ensures
        accounts_wf(replay(records).0),
    decreases records.len(),
{
    if records.len() > 0 {
        law_reachable_balances_consistent(records.drop_last());
        let (clients, log) = replay(records.drop_last());
        law_balances_stay_consistent(clients, log, records.last());
    }
}

/// A locked account stays locked, whatever record is applied.
pub proof fn law_lock_is_permanent(
    clients: Map<ClientId, ClientAccount>,
    log: Map<TransactionId, LoggedTransaction>,
    t: Transaction,
    c: ClientId,
)
    requires
        clients.contains_key(c),
        clients[c].locked,
    ensures
        step(clients, log, t).1.contains_key(c),
        step(clients, log, t).1[c].locked,
{
}

/// A dispute or a resolve never changes any account's total.
pub proof fn law_dispute_and_resolve_keep_totals(
    clients: Map<ClientId, ClientAccount>,
    log: Map<TransactionId, LoggedTransaction>,
    t: Transaction,
    c: ClientId,
)
    requires
        t.typ == TransactionType::Dispute || t.typ == TransactionType::Resolve,
        clients.contains_key(c),
    ensures
        step(clients, log, t).1.dom() == clients.dom(),
        step(clients, log, t).1[c].total == clients[c].total,
{
}

/// A resolve or a chargeback that refers to a transaction not under
/// dispute changes nothing and reports no error.
pub proof fn law_undisputed_reference_changes_nothing(
    clients: Map<ClientId, ClientAccount>,
    log: Map<TransactionId, LoggedTransaction>,
    t: Transaction,
)
    requires
        t.typ == TransactionType::Resolve || t.typ == TransactionType::Chargeback,
        !(log.contains_key(t.tx) && log[t.tx].status == TxStatus::Disputed),
    ensures
        step(clients, log, t) == (Ok::<(), ProcessingError>(()), clients, log),
{
}

/// A dispute that refers to an unknown transaction, or to one of another
/// client, changes nothing and reports no error.
pub proof fn law_unmatched_dispute_changes_nothing(
    clients: Map<ClientId, ClientAccount>,
    log: Map<TransactionId, LoggedTransaction>,
    t: Transaction,
)
    requires
        t.typ == TransactionType::Dispute,
        !log.contains_key(t.tx) || log[t.tx].client != t.client,
    ensures
        step(clients, log, t) == (Ok::<(), ProcessingError>(()), clients, log),
{
}

} // verus!
