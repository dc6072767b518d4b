//! A batch ledger engine: it consumes an ordered stream of typed financial
//! instructions (deposit, withdrawal, dispute, resolve, chargeback), applies
//! them to per-client accounts, and enforces the overdraft, lock and
//! dispute-lifecycle rules.

pub mod csv;
pub mod processors;
pub mod structs;
