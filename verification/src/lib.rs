//! Core of a decentralized scraping-task marketplace.
//!
//! Clients post tasks and escrow their reward in a custodial vault; provider
//! nodes are assigned tasks (directly, or through an endpoint node gated by a
//! membership registry), complete them against a result reference, and are
//! paid from the vault. Providers may additionally claim reputation-threshold
//! bonuses. Every operation is a single atomic transition: all checks run
//! before any mutation, and a failed operation leaves every record unchanged.
//!
//! The surrounding ledger runtime — account storage, signature checking,
//! address derivation, token custody — is an external collaborator. This
//! crate holds the records as plain values and verifies the transitions.

use vstd::prelude::*;

pub mod client;
pub mod dataset;
pub mod endpoint_node;
pub mod error;
pub mod identity;
pub mod laws;
pub mod node_registry;
pub mod provider_node;
pub mod reward;
pub mod task;
pub mod token;

verus! {

/// Bonus reward granted per reputation threshold crossed.
pub const BONUS_RATE: u64 = 100;

/// Reputation a provider must accumulate before each bonus becomes claimable.
pub const REPUTATION_THRESHOLD: u64 = 50;

} // verus!
