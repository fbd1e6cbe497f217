use vstd::prelude::*;

verus! {

/// A liquidity position: its liquidity, the fee growth inside its range at the
/// last checkpoint, and the fees owed to it.
#[derive(Clone, Copy, Debug)]
pub struct Position {
    pub liquidity: i128,
    pub fee_growth_inside_last_0: u128,
    pub fee_growth_inside_last_1: u128,
    pub tokens_owed_0: u128,
    pub tokens_owed_1: u128,
}

/// The empty position.
pub open spec fn empty_position() -> Position {
    Position {
        liquidity: 0,
        fee_growth_inside_last_0: 0,
        fee_growth_inside_last_1: 0,
        tokens_owed_0: 0,
        tokens_owed_1: 0,
    }
}

impl Default for Position {
    fn default() -> (r: Self)
        ensures
            r == empty_position(),
    {
        Self {
            liquidity: 0,
            fee_growth_inside_last_0: 0,
            fee_growth_inside_last_1: 0,
            tokens_owed_0: 0,
            tokens_owed_1: 0,
        }
    }
}

/// A position as reported to its owner: liquidity, the token amounts it
/// represents at the current price, and the fees owed including pending ones.
#[derive(Clone, Copy, Debug)]
pub struct PositionInfo {
    pub liquidity: i128,
    pub amount0: i128,
    pub amount1: i128,
    pub fees_owed_0: u128,
    pub fees_owed_1: u128,
}

impl Default for PositionInfo {
    fn default() -> (r: Self)
        ensures
            r == (PositionInfo { liquidity: 0, amount0: 0, amount1: 0, fees_owed_0: 0, fees_owed_1: 0 }),
    {
        Self { liquidity: 0, amount0: 0, amount1: 0, fees_owed_0: 0, fees_owed_1: 0 }
    }
}

} // verus!
