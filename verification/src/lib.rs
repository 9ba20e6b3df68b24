//! # EIP-7732 — Enshrined Proposer-Builder Separation (ePBS)
//!
//! A verified library for the consensus-side logic of ePBS.
//!
//! - [`beacon_chain`] — containers, state transition functions, constants
//! - [`builder`]      — honest builder guide: bid construction and envelope reveal
//! - [`fork_choice`]  — fork-choice store extension (Full / Empty / Skipped slots)
//! - [`p2p`]          — gossip topics
//! - [`utils`]        — BLS helpers, signing roots and byte comparisons

pub mod beacon_chain;
pub mod builder;
pub mod fork_choice;
pub mod p2p;
pub mod utils;
