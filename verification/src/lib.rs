//! Escrow and funding ledger for a crowdfunding platform.
//!
//! Contributions toward campaigns are held in escrow until a settlement
//! decision releases them to the campaign owner (goal met) or refunds the
//! backers (goal missed).  The ledger, the escrow state machine and the
//! settlement engine are verified; the canister glue (clock, caller identity,
//! inter-canister calls, durable storage) lives outside this crate and hands
//! the ledger plain values.

pub mod admin;
pub mod backend;
pub mod errors;
pub mod escrow;
pub mod escrow_types;
pub mod laws;
pub mod pk;
