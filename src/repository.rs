//! The ledger: all accounts, and the log that backs the dispute workflow.
use std::collections::BTreeMap;

use vstd::prelude::*;

use crate::account::{ClientAccount, ClientId, ProcessingError, TransactionId};
use crate::funds::Funds;
use crate::transaction::{LoggedTransaction, Transaction, TransactionType, TxStatus};

verus! {

/// Every account agrees with itself and sits under its own client id.
pub open spec fn accounts_wf(clients: Map<ClientId, ClientAccount>) -> bool {
    forall|c: ClientId| #[trigger]
        clients.contains_key(c) ==> clients[c].wf() && clients[c].client == c
}

/// The effect of a primary record (deposit or withdrawal) whose transition
/// on `client`'s account gave `outcome`: on success the account is replaced
/// and the record is logged as posted.
pub open spec fn primary_step(
    clients: Map<ClientId, ClientAccount>,
    log: Map<TransactionId, LoggedTransaction>,
    t: Transaction,
    outcome: Result<ClientAccount, ProcessingError>,
) -> (Result<(), ProcessingError>, Map<ClientId, ClientAccount>, Map<TransactionId, LoggedTransaction>) {
    match outcome {
        Ok(acc) => (
            Ok(()),
            clients.insert(t.client, acc),
            log.insert(t.tx, LoggedTransaction { client: t.client, amount: t.amount, status: TxStatus::Posted }),
        ),
        Err(e) => (Err(e), clients, log),
    }
}

/// Whether the record `t` refers to a logged record of its own client in
/// status `status`.
pub open spec fn refers_to(log: Map<TransactionId, LoggedTransaction>, t: Transaction, status: TxStatus) -> bool {
    log.contains_key(t.tx) && log[t.tx].client == t.client && log[t.tx].status == status
}

/// The effect of a dispute, resolve or chargeback whose transition gave
/// `outcome`: on success the account is replaced and the logged record
/// moves to `next`.
pub open spec fn reference_step(
    clients: Map<ClientId, ClientAccount>,
    log: Map<TransactionId, LoggedTransaction>,
    t: Transaction,
    outcome: Result<ClientAccount, ProcessingError>,
    next: TxStatus,
) -> (Result<(), ProcessingError>, Map<ClientId, ClientAccount>, Map<TransactionId, LoggedTransaction>) {
    match outcome {
        Ok(acc) => (
            Ok(()),
            clients.insert(t.client, acc),
            log.insert(t.tx, LoggedTransaction { status: next, ..log[t.tx] }),
        ),
        Err(e) => (Err(e), clients, log),
    }
}

/// What applying the record `t` returns, and the accounts and log after it.
pub open spec fn step(
    clients: Map<ClientId, ClientAccount>,
    log: Map<TransactionId, LoggedTransaction>,
    t: Transaction,
) -> (Result<(), ProcessingError>, Map<ClientId, ClientAccount>, Map<TransactionId, LoggedTransaction>) {
    if !clients.contains_key(t.client) {
        // Only a deposit opens an account.
        match t.typ {
            TransactionType::Deposit => primary_step(clients, log, t, ClientAccount::fresh(t.client).deposited(t.amount)),
            _ => (Ok(()), clients, log),
        }
    } else {
        let acc = clients[t.client];
        match t.typ {
            TransactionType::Deposit => primary_step(clients, log, t, acc.deposited(t.amount)),
            TransactionType::Withdrawal => primary_step(clients, log, t, acc.withdrawn(t.amount)),
            TransactionType::Dispute => if refers_to(log, t, TxStatus::Posted) {
                reference_step(clients, log, t, acc.disputed(log[t.tx].amount), TxStatus::Disputed)
            } else {
                (Ok(()), clients, log)
            },
            TransactionType::Resolve => if refers_to(log, t, TxStatus::Disputed) {
                reference_step(clients, log, t, acc.resolved(log[t.tx].amount), TxStatus::Posted)
            } else {
                (Ok(()), clients, log)
            },
            TransactionType::Chargeback => if refers_to(log, t, TxStatus::Disputed) {
                reference_step(clients, log, t, acc.charged_back(log[t.tx].amount), TxStatus::ChargedBack)
            } else {
                (Ok(()), clients, log)
            },
        }
    }
}

/// All client accounts, and the log of deposits and withdrawals by
/// transaction id.
pub struct ClientRepository {
    pub clients: BTreeMap<ClientId, ClientAccount>,
    pub transaction_log: BTreeMap<TransactionId, LoggedTransaction>,
}

impl ClientRepository {
    pub open spec fn wf(&self) -> bool {
        accounts_wf(self.clients@)
    }

    pub fn new() -> (r: ClientRepository)
        ensures
            r.clients@ == Map::<ClientId, ClientAccount>::empty(),
            r.transaction_log@ == Map::<TransactionId, LoggedTransaction>::empty(),
            r.wf(),
    {
        ClientRepository { clients: BTreeMap::new(), transaction_log: BTreeMap::new() }
    }

    /// Applies one record. Records that the rules refuse change nothing and
    /// still return `Ok`; an `Err` also leaves the ledger unchanged.
    pub fn process(&mut self, input: Transaction) -> (r: Result<(), ProcessingError>)
        requires
            old(self).wf(),
        ensures
            final(self).wf(),
            r == step(old(self).clients@, old(self).transaction_log@, input).0,
            final(self).clients@ == step(old(self).clients@, old(self).transaction_log@, input).1,
            final(self).transaction_log@ == step(old(self).clients@, old(self).transaction_log@, input).2,
    {
        let Transaction { typ, client, tx, amount } = input;
        let mut acc = match self.clients.get(&client) {
            Some(a) => *a,
            None => match typ {
                TransactionType::Deposit => ClientAccount::new(client),
                // Only a deposit opens an account.
                _ => return Ok(()),
            },
        };
        match typ {
            TransactionType::Deposit | TransactionType::Withdrawal => {
                let r = if let TransactionType::Deposit = typ {
                    acc.deposit(tx, amount)
                } else {
                    acc.withdraw(tx, amount)
                };
                if r.is_ok() {
                    self.clients.insert(client, acc);
                    self.log_transaction(client, tx, amount);
                }
                r
            },
            _ => {
                let entry = match self.transaction_log.get(&tx) {
                    Some(e) => *e,
                    None => return Ok(()),
                };
                if entry.client != client {
                    return Ok(());
                }
                let (r, next) = match (typ, entry.status) {
                    (TransactionType::Dispute, TxStatus::Posted) => (acc.dispute(tx, entry.amount), TxStatus::Disputed),
                    (TransactionType::Resolve, TxStatus::Disputed) => (acc.resolve(tx, entry.amount), TxStatus::Posted),
                    (TransactionType::Chargeback, TxStatus::Disputed) => (acc.chargeback(tx, entry.amount), TxStatus::ChargedBack),
                    _ => return Ok(()),
                };
                if r.is_ok() {
                    self.clients.insert(client, acc);
                    self.transaction_log.insert(tx, LoggedTransaction { status: next, ..entry });
                }
                r
            },
        }
    }

    /// Every account, in ascending order of client id.
    pub fn output(&self) -> (r: Vec<ClientAccount>)
        requires
            self.wf(),
        ensures
            forall|i: int|
                0 <= i < r.len() ==> self.clients@.contains_key(#[trigger] r[i].client)
                    && self.clients@[r[i].client] == r[i],
            forall|i: int, j: int| 0 <= i < j < r.len() ==> r[i].client < r[j].client,
            forall|c: ClientId|
                #[trigger] self.clients@.contains_key(c) ==> exists|i: int|
                    0 <= i < r.len() && r[i].client == c,
    {
        let mut r: Vec<ClientAccount> = Vec::new();
        // Client ids are 16-bit, so every id is looked up in turn.
        let mut c: u32 = 0;
        while c <= u16::MAX as u32
            invariant
                c <= u16::MAX + 1,
                self.wf(),
                forall|i: int|
                    0 <= i < r.len() ==> self.clients@.contains_key(#[trigger] r[i].client)
                        && self.clients@[r[i].client] == r[i] && r[i].client < c,
                forall|i: int, j: int| 0 <= i < j < r.len() ==> r[i].client < r[j].client,
                forall|k: ClientId|
                    #[trigger] self.clients@.contains_key(k) && k < c ==> exists|i: int|
                        0 <= i < r.len() && r[i].client == k,
            decreases u16::MAX + 1 - c,
        {
            let id = c as u16;
            if let Some(a) = self.clients.get(&id) {
                let ghost prev = r@;
                r.push(*a);
                proof {
                    assert forall|k: ClientId|
                        #[trigger] self.clients@.contains_key(k) && k < c + 1 implies exists|i: int|
                            0 <= i < r.len() && r[i].client == k by {
                        if k == id {
                            assert(r[prev.len() as int].client == k);
                        } else {
                            let i = choose|i: int| 0 <= i < prev.len() && prev[i].client == k;
                            assert(r[i].client == k);
                        }
                    }
                }
            }
            c += 1;
        }
        r
    }

    /// Keeps a deposit or withdrawal for later disputes.
    fn log_transaction(&mut self, client: ClientId, tx: TransactionId, amount: Option<Funds>)
        ensures
            final(self).clients@ == old(self).clients@,
            final(self).transaction_log@ == old(self).transaction_log@.insert(
                tx,
                LoggedTransaction { client, amount, status: TxStatus::Posted },
            ),
    {
        let entry = LoggedTransaction { client, amount, status: TxStatus::Posted };
        self.transaction_log.insert(tx, entry);
    }
}

} // verus!
