//! Settlement and custody engine for tokenized freight-trailer assets.
//!
//! The library holds the account state machines (primary sale, escrow-backed
//! resale listing, returns pool, asset registry) and an in-process ledger that
//! supplies the value-transfer and custody-transfer primitives. Every mutating
//! operation either commits all of its effects or leaves the ledger and the
//! record exactly as it found them.
pub mod address;
pub mod asset_nft;
pub mod config;
pub mod error;
pub mod ledger;
pub mod opti_freight;
pub mod primary_market;
pub mod returns_distribution;
pub mod secondary_market;
