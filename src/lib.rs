//! Election management over a key-addressed account store: deterministic
//! account addresses, an election lifecycle, voter credentials backed by a
//! single-use voting-rights unit, anonymous sequentially numbered ballots,
//! and receipt-based auditing.

pub mod errors;
pub mod keys;
pub mod digest;
pub mod state;
pub mod lifecycle;
pub mod registration;
pub mod voting;
pub mod audit;
pub mod ledger;
pub mod laws;
pub mod counter;
