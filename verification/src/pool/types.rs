use vstd::prelude::*;

verus! {

/// The pool's fee configuration: the trading fee and the creator's share of it,
/// both in basis points.
#[derive(Clone, Copy, Debug)]
pub struct PoolConfig {
    pub fee_bps: u32,
    pub creator_fee_bps: u32,
}

/// The pool's market state.
#[derive(Clone, Copy, Debug)]
pub struct PoolState {
    pub sqrt_price_x64: u128,
    pub current_tick: i32,
    pub liquidity: i128,
    pub tick_spacing: i32,
    pub fee_growth_global_0: u128,
    pub fee_growth_global_1: u128,
    pub creator_fees_0: u128,
    pub creator_fees_1: u128,
}

/// Creator fees accumulated by a pool, per token.
#[derive(Clone, Copy, Debug)]
pub struct CreatorFeesInfo {
    pub fees_token0: u128,
    pub fees_token1: u128,
}

impl Default for CreatorFeesInfo {
    fn default() -> (r: Self)
        ensures
            r == (CreatorFeesInfo { fees_token0: 0, fees_token1: 0 }),
    {
        Self { fees_token0: 0, fees_token1: 0 }
    }
}

/// A time-weighted price observation.
#[derive(Clone, Copy, Debug)]
pub struct TWAPObservation {
    pub timestamp: u64,
    pub tick_cumulative: i128,
    pub liquidity_cumulative: u128,
}

impl Default for TWAPObservation {
    fn default() -> (r: Self)
        ensures
            r == (TWAPObservation { timestamp: 0, tick_cumulative: 0, liquidity_cumulative: 0 }),
    {
        Self { timestamp: 0, tick_cumulative: 0, liquidity_cumulative: 0 }
    }
}

} // verus!
