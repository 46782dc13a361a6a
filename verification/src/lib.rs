//! A wagering-market ledger with a dual-layer execution protocol.
//!
//! User funds are escrowed against time-bounded pools, an authority records a
//! final outcome, and a protocol fee is split off at settlement. Pool and
//! wager records can be handed off ("delegated") to a secondary low-latency
//! execution layer and later committed back, with exclusive ownership tracked
//! per record.
//!
//! The library is the decision core: every operation is a verified transition
//! over plain values. The external collaborators — the value-transfer
//! primitive and the secondary execution layer — are consulted by the caller,
//! and their outcomes are passed in as arguments; each contract states what
//! holds for every such outcome.

pub mod addr;
pub mod config;
pub mod delegation;
pub mod errors;
pub mod events;
pub mod laws;
pub mod ledger;
pub mod state;
