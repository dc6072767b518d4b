//! The passive state entities of the ledger: client accounts and
//! transaction records.

pub mod clients;
pub mod transaction;
