//! A token registry extension that adds two cross-cutting guarantees on top
//! of a plain non-fungible-token ledger: time-bounded visibility (expiration)
//! and proportional payout splitting (perpetual royalties), under a
//! storage-metered persistence model in which the caller of a mutation pays
//! exactly for the storage units it adds and is refunded any excess.
//!
//! The hosting environment (account identities, the clock, attached payment,
//! the per-unit storage price) is handed in as plain values; every operation
//! is a verified transition on one owned aggregate, [`contract::Contract`].

pub mod approval;
pub mod contract;
pub mod duration;
pub mod errors;
pub mod metadata;
pub mod mint;
pub mod pairs;
pub mod royalty;
pub mod token;
pub mod transfer;
pub mod units;
