//! Redemption of signed emission tickets.
//!
//! An administrator signs tickets off-chain; a beneficiary redeems a ticket
//! exactly once. The signature itself is checked by the Ed25519 program in
//! the instruction that precedes the claim: this library reads that
//! instruction's payload, matches it against the ticket, and records the
//! claim so that it cannot be replayed.
//!
//! - [`ticket`]: the canonical message that is signed for a ticket;
//! - [`ed25519`]: the payload of the Ed25519 instruction;
//! - [`introspection`]: the instruction that precedes the claim;
//! - [`ledger`]: the records of redeemed tickets;
//! - [`redemption`]: the claim itself;
//! - [`config`]: the global configuration.

pub mod bytes;
pub mod config;
pub mod ed25519;
pub mod error;
pub mod introspection;
pub mod ledger;
pub mod redemption;
pub mod ticket;

pub use crate::config::{initialize_config, Config, InitializeConfig};
pub use crate::error::EmissionsError;
pub use crate::ledger::{ClaimLedger, ClaimRecord};
pub use crate::redemption::{claim, redeem, Claim, Payout};
