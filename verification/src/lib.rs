//! Ledger settlement engine for a fungible-token balance sheet.
//!
//! The crate records and settles value-bearing events against token custody
//! accounts: token mint/transfer/airdrop operations, paid creation of
//! ownership claims binding a requester to a content fingerprint, and swaps
//! of the token against a second token through a fee-bearing exchange pool.
//! Every settlement operation is all-or-nothing: the first failing check
//! aborts the operation with a distinct error and no state change.

pub mod error;
pub mod exchange;
pub mod ledger;
pub mod msc_token;
pub mod ownership;
pub mod service;
pub mod state;
