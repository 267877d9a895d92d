//! A verified settlement engine for fungible assets.
//!
//! The engine moves assets between accounts under explicit authorization:
//! a direct `send`, a cross-asset `exchange` or `swap` that routes funds
//! through the engine's own custody and deducts a flat fee, and
//! `load_tokens_into_contract` to seed the engine's reserves. Accounts and
//! assets are opaque identifiers; balances live in a [`ledger::Ledger`],
//! the engine's model of the external asset ledger it settles against.

pub mod auth;
pub mod engine;
pub mod errors;
pub mod laws;
pub mod ledger;

pub use engine::ExchangeContract;
