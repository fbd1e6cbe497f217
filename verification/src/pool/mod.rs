//! The pool contract's decisions: what each entry point does to the pool state,
//! the ticks and the caller's position, and which transfers it owes.
pub mod error;
pub mod types;
pub mod logic;
pub mod laws;

pub use error::{ErrorMsg, PoolError};
pub use types::{CreatorFeesInfo, PoolConfig, PoolState, TWAPObservation};
pub use logic::{safe_u128_to_i128, BelugaPool};
