//! A verified account ledger.
//!
//! The crate ingests a sequence of financial events (deposit, withdrawal,
//! dispute, resolve, chargeback), each naming a client and a transaction id,
//! and maintains per-client balances under strict consistency rules for
//! disputed funds and account locking.
//!
//! [`account::Account`] holds one client's balance state and enforces that
//! every mutation is individually valid. [`transaction_engine::TransactionEngine`]
//! routes events to accounts and coordinates the cross-transaction state
//! (the record of prior deposits) that disputes need. Reading events from an
//! input source and writing the final snapshot to an output sink are left to
//! unverified callers.

pub mod account;
pub mod common_types;
pub mod transaction_engine;
