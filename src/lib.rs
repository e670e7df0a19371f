//! A client ledger: deposits, withdrawals and the dispute workflow
//! (dispute, resolve, chargeback) over fixed-point funds.
pub mod funds;
pub mod account;
pub mod transaction;
pub mod repository;
pub mod laws;
