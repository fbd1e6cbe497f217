use vstd::prelude::*;

verus! {

/// 1.0 in Q64.64 fixed point (2^64).
pub const Q64: u128 = 0x1_0000_0000_0000_0000u128;

/// Smallest tick whose price can be represented.
pub const MIN_TICK: i32 = -887272i32;

/// Largest tick whose price can be represented.
pub const MAX_TICK: i32 = 887272i32;

/// Smallest liquidity a position may be opened with.
pub const MIN_LIQUIDITY: i128 = 1000i128;

/// Smallest input amount a swap accepts.
pub const MIN_SWAP_AMOUNT: i128 = 1i128;

/// Smallest output amount a swap (or a swap step) may produce.
pub const MIN_OUTPUT_AMOUNT: i128 = 1i128;

/// Largest accepted difference between input and output, in basis points of the input.
pub const MAX_SLIPPAGE_BPS: i128 = 5000i128;

/// Upper bound on the number of steps of one swap.
pub const MAX_SWAP_ITERATIONS: u32 = 100u32;

/// Upper bound on the number of tick boundaries inspected when looking for the next initialized tick.
pub const MAX_TICK_SEARCH_STEPS: u32 = 256u32;

/// Largest trading fee of a pool, in basis points.
pub const MAX_FEE_BPS: u32 = 10000u32;

/// Smallest creator share of the trading fee, in basis points.
pub const MIN_CREATOR_FEE_BPS: u32 = 1u32;

/// Largest creator share of the trading fee, in basis points.
pub const MAX_CREATOR_FEE_BPS: u32 = 1000u32;

/// 2^64 as a mathematical integer.
pub open spec fn two64() -> int {
    0x1_0000_0000_0000_0000int
}

/// 2^128 as a mathematical integer.
pub open spec fn two128() -> int {
    0x1_0000_0000_0000_0000_0000_0000_0000_0000int
}

} // verus!
