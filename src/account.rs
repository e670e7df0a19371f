//! One client's account and its five transitions.
use vstd::prelude::*;

use crate::funds::{fits, Funds};

verus! {

pub type ClientId = u16;

pub type TransactionId = u32;

/// Why a record could not be applied.
#[derive(Clone, Copy, Debug, PartialEq, Eq, Structural)]
pub enum ProcessingError {
    /// A dispute, resolve or chargeback reached a logged record without an amount.
    MissingAmount,
    /// A balance would leave the range that `Funds` can hold.
    Overflow,
}

/// The balances of one client.
#[derive(Clone, Copy, Debug, PartialEq, Eq, Structural)]
pub struct ClientAccount {
    pub client: ClientId,
    pub available: Funds,
    pub held: Funds,
    pub total: Funds,
    pub locked: bool,
}

impl ClientAccount {
    /// The balances agree: everything is either available or held.
    pub open spec fn wf(self) -> bool {
        self.total.value() == self.available.value() + self.held.value()
    }

    /// A zeroed, unlocked account.
    pub open spec fn fresh(client: ClientId) -> ClientAccount {
        ClientAccount {
            client,
            available: Funds::of(0),
            held: Funds::of(0),
            total: Funds::of(0),
            locked: false,
        }
    }

    /// The account after a deposit.
    pub open spec fn deposited(self, amount: Option<Funds>) -> Result<ClientAccount, ProcessingError> {
        match amount {
            None => Ok(self),
            Some(a) => {
                let av = self.available.value() + a.value();
                let t = self.total.value() + a.value();
                if fits(av) && fits(t) {
                    Ok(ClientAccount { available: Funds::of(av), total: Funds::of(t), ..self })
                } else {
                    Err(ProcessingError::Overflow)
                }
            },
        }
    }

    /// The account after a withdrawal; one that exceeds the available funds
    /// changes nothing.
    pub open spec fn withdrawn(self, amount: Option<Funds>) -> Result<ClientAccount, ProcessingError> {
        match amount {
            None => Ok(self),
            Some(a) => {
                let av = self.available.value() - a.value();
                let t = self.total.value() - a.value();
                if self.available.value() < a.value() {
                    Ok(self)
                } else if fits(av) && fits(t) {
                    Ok(ClientAccount { available: Funds::of(av), total: Funds::of(t), ..self })
                } else {
                    Err(ProcessingError::Overflow)
                }
            },
        }
    }

    /// The account after the amount of a disputed record is held.
    pub open spec fn disputed(self, amount: Option<Funds>) -> Result<ClientAccount, ProcessingError> {
        match amount {
            None => Err(ProcessingError::MissingAmount),
            Some(a) => {
                let av = self.available.value() - a.value();
                let h = self.held.value() + a.value();
                if fits(av) && fits(h) {
                    Ok(ClientAccount { available: Funds::of(av), held: Funds::of(h), ..self })
                } else {
                    Err(ProcessingError::Overflow)
                }
            },
        }
    }

    /// The account after a held amount is released.
    pub open spec fn resolved(self, amount: Option<Funds>) -> Result<ClientAccount, ProcessingError> {
        match amount {
            None => Err(ProcessingError::MissingAmount),
            Some(a) => {
                let h = self.held.value() - a.value();
                let av = self.available.value() + a.value();
                if fits(av) && fits(h) {
                    Ok(ClientAccount { available: Funds::of(av), held: Funds::of(h), ..self })
                } else {
                    Err(ProcessingError::Overflow)
                }
            },
        }
    }

    /// The account after a held amount is charged back; the account locks.
    pub open spec fn charged_back(self, amount: Option<Funds>) -> Result<ClientAccount, ProcessingError> {
        match amount {
            None => Err(ProcessingError::MissingAmount),
            Some(a) => {
                let h = self.held.value() - a.value();
                let t = self.total.value() - a.value();
                if fits(h) && fits(t) {
                    Ok(ClientAccount { held: Funds::of(h), total: Funds::of(t), locked: true, ..self })
                } else {
                    Err(ProcessingError::Overflow)
                }
            },
        }
    }

    /// `r` and the new account `after` are what `outcome` says of `before`:
    /// the new account on success, the old one unchanged on an error.
    pub open spec fn applied(
        before: ClientAccount,
        after: ClientAccount,
        r: Result<(), ProcessingError>,
        outcome: Result<ClientAccount, ProcessingError>,
    ) -> bool {
        match outcome {
            Ok(acc) => r == Ok::<(), ProcessingError>(()) && after == acc,
            Err(e) => r == Err::<(), ProcessingError>(e) && after == before,
        }
    }

    pub fn new(client: ClientId) -> (r: ClientAccount)
        ensures
            r == ClientAccount::fresh(client),
            r.wf(),
    {
        ClientAccount {
            client,
            available: Funds::zero(),
            held: Funds::zero(),
            total: Funds::zero(),
            locked: false,
        }
    }

    pub fn deposit(&mut self, _tx: TransactionId, amount: Option<Funds>) -> (r: Result<(), ProcessingError>)
        requires
            old(self).wf(),
        ensures
            ClientAccount::applied(*old(self), *final(self), r, old(self).deposited(amount)),
            final(self).wf(),
    {
        let a = match amount {
            None => return Ok(()),
            Some(a) => a,
        };
        match (self.available.checked_add(a), self.total.checked_add(a)) {
            (Some(av), Some(t)) => {
                self.available = av;
                self.total = t;
                Ok(())
            },
            _ => Err(ProcessingError::Overflow),
        }
    }
    pub fn withdraw(&mut self, _tx: TransactionId, amount: Option<Funds>) -> (r: Result<(), ProcessingError>)
        requires
            old(self).wf(),
        ensures
            ClientAccount::applied(*old(self), *final(self), r, old(self).withdrawn(amount)),
            final(self).wf(),
    {
        let a = match amount {
            None => return Ok(()),
            Some(a) => a,
        };
        if self.available.units < a.units {
            // Insufficient funds: the withdrawal is refused and nothing changes.
            return Ok(());
        }
        match (self.available.checked_sub(a), self.total.checked_sub(a)) {
            (Some(av), Some(t)) => {
                self.available = av;
                self.total = t;
                Ok(())
            },
            _ => Err(ProcessingError::Overflow),
        }
    }

    pub fn dispute(&mut self, _tx: TransactionId, amount: Option<Funds>) -> (r: Result<(), ProcessingError>)
        requires
            old(self).wf(),
        ensures
            ClientAccount::applied(*old(self), *final(self), r, old(self).disputed(amount)),
            final(self).wf(),
    {
        let a = match amount {
            None => return Err(ProcessingError::MissingAmount),
            Some(a) => a,
        };
        match (self.available.checked_sub(a), self.held.checked_add(a)) {
            (Some(av), Some(h)) => {
                self.available = av;
                self.held = h;
                Ok(())
            },
            _ => Err(ProcessingError::Overflow),
        }
    }

    pub fn resolve(&mut self, _tx: TransactionId, amount: Option<Funds>) -> (r: Result<(), ProcessingError>)
        requires
            old(self).wf(),
        ensures
            ClientAccount::applied(*old(self), *final(self), r, old(self).resolved(amount)),
            final(self).wf(),
    {
        let a = match amount {
            None => return Err(ProcessingError::MissingAmount),
            Some(a) => a,
        };
        match (self.available.checked_add(a), self.held.checked_sub(a)) {
            (Some(av), Some(h)) => {
                self.available = av;
                self.held = h;
                Ok(())
            },
            _ => Err(ProcessingError::Overflow),
        }
    }

    pub fn chargeback(&mut self, _tx: TransactionId, amount: Option<Funds>) -> (r: Result<(), ProcessingError>)
        requires
            old(self).wf(),
        ensures
            ClientAccount::applied(*old(self), *final(self), r, old(self).charged_back(amount)),
            final(self).wf(),
    {
        let a = match amount {
            None => return Err(ProcessingError::MissingAmount),
            Some(a) => a,
        };
        match (self.held.checked_sub(a), self.total.checked_sub(a)) {
            (Some(h), Some(t)) => {
                self.held = h;
                self.total = t;
                self.locked = true;
                Ok(())
            },
            _ => Err(ProcessingError::Overflow),
        }
    }
}

} // verus!
