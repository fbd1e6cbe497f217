//! Verified core of a concentrated-liquidity AMM: Q64.64 fixed-point math,
//! tick and position bookkeeping, the multi-tick swap engine, and the
//! decision logic of the pool, factory and router contracts.
pub mod math;
pub mod host;
pub mod position;
pub mod tick;
pub mod swap;
pub mod pool;
pub mod factory;
pub mod router;
