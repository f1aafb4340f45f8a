//! Core of a binary-outcome prediction market that lives in durable,
//! directly-addressable storage: deterministic record addressing, market
//! creation with a bounded per-authority registry, and stake accounting
//! with temporal gating and overflow-safe totals.
//!
//! The surrounding runtime authenticates callers, persists records and moves
//! native value; this crate holds the state-transition logic itself, with
//! each transition's behaviour stated in its contract.

pub mod address;
pub mod create;
pub mod error;
pub mod market;
pub mod pda;
pub mod query;
pub mod registry;
pub mod stake;
pub mod vault;

pub use address::Address;
pub use create::CreateMarket;
pub use create::CreateMarketFromApi;
pub use create::create_market;
pub use create::create_market_from_api;
pub use error::MarketError;
pub use market::MarketAccount;
pub use query::GetMarketsForAuthority;
pub use query::get_markets_for_authority;
pub use registry::RegistryAccount;
pub use stake::PlacePrediction;
pub use stake::PredictionPlaced;
pub use stake::place_prediction;
pub use vault::VaultAccount;
