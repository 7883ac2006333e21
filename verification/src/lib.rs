//! Swap gating for a tiered, multi-asset exchange.
//!
//! Every swap request is authenticated, protected against replay, held
//! against rate limits that follow a live valuation, taxed with the tax
//! split exactly among its destination pools, and committed as a whole or
//! not at all. Rewards accumulate in a bounded ledger and are distributed
//! periodically.
//!
//! The coordinator's side: [`nonce`], [`signature`], [`tier`],
//! [`admission`], [`tax`], [`badges`], [`rewards`], [`coordinator`],
//! [`orchestrator`], [`registry`], [`contract`], [`airdrop`] and
//! [`stealth_airdrop_vault`]. The child asset's side: [`seed_coin`].
//! Addresses and errors: [`address`], [`error`].
//!
//! The library moves no tokens and reads no clock: time and block are
//! arguments, and what is to be paid, minted or burned is handed back to
//! the caller.

pub mod address;
pub mod admission;
pub mod airdrop;
pub mod badges;
pub mod contract;
pub mod coordinator;
pub mod error;
pub mod nonce;
pub mod orchestrator;
pub mod registry;
pub mod rewards;
pub mod seed_coin;
pub mod signature;
pub mod stealth_airdrop_vault;
pub mod tax;
pub mod tier;
