//! Per-account nonce checking for submitted transactions.
//!
//! A transaction names the nonce its signer believes is next. The check runs in
//! three phases: `validate` (read-only, may run many times against stale
//! snapshots), `prepare` (the single point where the account's nonce advances)
//! and `post_dispatch_details` (hands back the refund owed by a skipped check).
//! `validate` also derives the dependency tags a transaction pool uses to order
//! pending transactions of one account.

pub mod laws;
pub mod ledger;
pub mod nonce;
pub mod tags;
pub mod validity;
pub mod weight;

pub use ledger::{AccountId, AccountInfo, Ledger, Nonce};
pub use nonce::{CheckNonce, Pre, Val};
pub use validity::{InvalidTransaction, ValidTransaction};
pub use weight::Weight;
