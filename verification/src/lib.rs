//! Yield extraction for a pooled liquid-staking aggregator.
//!
//! The aggregator issues one protocol token against deposits that it routes
//! into several staking pools. Each pool pays in a derivative token whose
//! value in base currency rises over time. What the vaults are worth beyond
//! the principal owed to the holders of the protocol token is yield; this
//! crate computes it, turns it into units of one pool's derivative token,
//! and says what a swap of those units through a liquidity mechanism does to
//! the vault and the treasury. Principal is never part of what is taken.
//!
//! - [`rate`]: conversion between derivative units and base currency.
//! - [`pools`]: the registered pools with their current rates.
//! - [`accountant`]: the yield over all vaults.
//! - [`authority`]: the authority scoped to one vault.
//! - [`extractor`]: one extraction from validated accounts to settled
//!   balances.

pub mod account;
pub mod accountant;
pub mod authority;
pub mod error;
pub mod extractor;
pub mod pools;
pub mod rate;

pub use crate::error::ExtractionError;
pub use crate::extractor::{extract_to_treasury_handler, ExtractToTreasury};
