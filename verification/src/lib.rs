//! A replay engine for a sequential log of ledger events.
//!
//! Events (deposits, withdrawals, disputes, resolutions, chargebacks) are
//! applied one at a time against a set of per-client accounts. The engine
//! keeps one balance record per client and one lifecycle record per
//! (client, transaction) pair, and enforces the legality rules that accept
//! or reject each event. Monetary amounts are integers in whatever minor
//! unit the caller chooses; the caller converts to and from decimal text.

pub mod account;
pub mod db;
pub mod error;
pub mod laws;
pub mod text;
pub mod transaction;
