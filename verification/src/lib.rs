//! A marketplace core for tokenized insurance policy claims.
//!
//! Two state machines live here. The asset registry takes a policy from
//! registration through listing to an atomic payment-for-ownership sale.
//! The trade coordinator opens trade proposals and collects approvals until a
//! quorum of two distinct approvers is reached.
//!
//! Every operation is a function of plain values: the record slot it works
//! on, the identities involved, the current time, and a callback that stands
//! for the value-transfer ledger. Storage, signing and event delivery belong
//! to the host.

pub mod asset;
pub mod coordinator;
pub mod error;
pub mod event;
pub mod identity;
pub mod laws;
pub mod registry;
pub mod trade;
pub mod transfer;
