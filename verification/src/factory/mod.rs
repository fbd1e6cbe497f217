//! The factory contract's decisions: fee tiers, pool creation rules, the
//! creator's liquidity lock and the creator fee it conditions.
pub mod error;
pub mod types;
pub mod logic;
pub mod laws;

pub use error::FactoryError;
pub use types::{CreatePoolParams, CreatorLock, FeeTier, FeeTierTable, PoolPlan};
pub use logic::BelugaFactory;
