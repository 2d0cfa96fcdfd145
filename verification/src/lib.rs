//! Rate-limit accounting for cross-chain asset transfers.
//!
//! For every `(channel, denom)` path the engine keeps a list of rules. Each
//! rule caps, independently for inflow and outflow, the share of the path's
//! channel value that may move during one time window. The functions of this
//! crate decide whether a transfer is admissible and compute the accounting
//! state that results; they never touch storage themselves.
//!
//! - [`state`] holds paths, flows, quotas and rate limits, with the
//!   admission check of one rule and its decay averaging.
//! - [`sudo`] admits a transfer on all rules of a path, or takes it back.
//! - [`helpers`] is the rollover scan over all paths.
//! - [`execute`] manages paths, bypasses and intents.
//! - [`model`] is the mathematical model that the contracts speak of, and
//!   [`laws`] proves what holds of it.
//! - [`uint256`], [`decimal256`] and [`timestamp`] are the numbers and
//!   times that the engine counts with.

pub mod decimal256;
pub mod error;
pub mod execute;
pub mod helpers;
pub mod laws;
pub mod migrations;
pub mod model;
pub mod msg;
pub mod state;
pub mod sudo;
pub mod timestamp;
pub mod uint256;
pub mod utils;

pub use crate::error::ContractError;
