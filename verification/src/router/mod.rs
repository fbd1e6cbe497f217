//! The router contract's decisions: request checks, quote selection, split and
//! multi-hop validation.
pub mod error;
pub mod logic;

pub use error::RouterError;
pub use logic::{BelugaRouter, HopPlan, PoolQuote, TierLookup};
