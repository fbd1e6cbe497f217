use vstd::prelude::*;
use crate::swap::types::{swap_error_message, SwapError};

verus! {

/// The messages under which the pool rejects a call.
pub struct ErrorMsg;

impl ErrorMsg {
    pub const ALREADY_INITIALIZED: &'static str = "pool already initialized";
    pub const INVALID_FEE: &'static str = "invalid fee: must be 1-10000 bps";
    pub const INVALID_CREATOR_FEE: &'static str = "invalid creator fee: must be 1-1000 bps";
    pub const INVALID_TICK_SPACING: &'static str = "invalid tick spacing: must be positive";
    pub const INVALID_TICK_RANGE: &'static str = "invalid tick range: lower must be < upper";
    pub const INVALID_TOKEN: &'static str = "invalid token for this pool";
    pub const SLIPPAGE_EXCEEDED: &'static str = "slippage tolerance exceeded";
    pub const LIQUIDITY_TOO_LOW: &'static str = "liquidity amount too low";
    pub const INSUFFICIENT_LIQUIDITY: &'static str = "insufficient liquidity in position";
    pub const INVALID_LIQUIDITY_AMOUNT: &'static str = "liquidity amount must be positive";
}

/// Why the pool rejects a call.
#[derive(Clone, Copy, Debug, PartialEq, Eq, Structural)]
pub enum PoolError {
    AlreadyInitialized,
    InvalidFee,
    InvalidCreatorFee,
    InvalidTickSpacing,
    InvalidTickRange,
    InvalidToken,
    SlippageExceeded,
    LiquidityTooLow,
    InsufficientLiquidity,
    InvalidLiquidityAmount,
    /// A swap input that is not positive.
    AmountNotPositive,
    /// The creator's locked position cannot be withdrawn.
    PositionLocked,
    /// A tick outside the supported range.
    TickOutOfRange,
    /// An intermediate result does not fit its type.
    ArithmeticOverflow,
    /// The swap engine aborted.
    Swap(SwapError),
}

impl PoolError {
    /// The message under which the call is rejected.
    pub fn message(&self) -> (r: &'static str)
        ensures
            *self == PoolError::AlreadyInitialized ==> r == ErrorMsg::ALREADY_INITIALIZED,
            *self == PoolError::InvalidFee ==> r == ErrorMsg::INVALID_FEE,
            *self == PoolError::InvalidCreatorFee ==> r == ErrorMsg::INVALID_CREATOR_FEE,
            *self == PoolError::InvalidTickSpacing ==> r == ErrorMsg::INVALID_TICK_SPACING,
            *self == PoolError::InvalidTickRange ==> r == ErrorMsg::INVALID_TICK_RANGE,
            *self == PoolError::InvalidToken ==> r == ErrorMsg::INVALID_TOKEN,
            *self == PoolError::SlippageExceeded ==> r == ErrorMsg::SLIPPAGE_EXCEEDED,
            *self == PoolError::LiquidityTooLow ==> r == ErrorMsg::LIQUIDITY_TOO_LOW,
            *self == PoolError::InsufficientLiquidity ==> r == ErrorMsg::INSUFFICIENT_LIQUIDITY,
            *self == PoolError::InvalidLiquidityAmount ==> r == ErrorMsg::INVALID_LIQUIDITY_AMOUNT,
            *self == PoolError::AmountNotPositive ==> r == "amount_in must be positive",
            *self == PoolError::PositionLocked ==> r == "position is locked",
            *self == PoolError::TickOutOfRange ==> r == "tick out of range",
            *self == PoolError::ArithmeticOverflow ==> r == "arithmetic overflow",
            *self matches PoolError::Swap(e) ==> r == swap_error_message(e),
    {
        match self {
            PoolError::AlreadyInitialized => ErrorMsg::ALREADY_INITIALIZED,
            PoolError::InvalidFee => ErrorMsg::INVALID_FEE,
            PoolError::InvalidCreatorFee => ErrorMsg::INVALID_CREATOR_FEE,
            PoolError::InvalidTickSpacing => ErrorMsg::INVALID_TICK_SPACING,
            PoolError::InvalidTickRange => ErrorMsg::INVALID_TICK_RANGE,
            PoolError::InvalidToken => ErrorMsg::INVALID_TOKEN,
            PoolError::SlippageExceeded => ErrorMsg::SLIPPAGE_EXCEEDED,
            PoolError::LiquidityTooLow => ErrorMsg::LIQUIDITY_TOO_LOW,
            PoolError::InsufficientLiquidity => ErrorMsg::INSUFFICIENT_LIQUIDITY,
            PoolError::InvalidLiquidityAmount => ErrorMsg::INVALID_LIQUIDITY_AMOUNT,
            PoolError::AmountNotPositive => "amount_in must be positive",
            PoolError::PositionLocked => "position is locked",
            PoolError::TickOutOfRange => "tick out of range",
            PoolError::ArithmeticOverflow => "arithmetic overflow",
            PoolError::Swap(e) => e.message(),
        }
    }
}

} // verus!
