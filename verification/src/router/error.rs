use vstd::prelude::*;

verus! {

/// Why the router rejects a call.
#[derive(Clone, Copy, Debug, PartialEq, Eq, Structural)]
pub enum RouterError {
    AlreadyInitialized,
    NotInitialized,
    InvalidPath,
    PathTooLong,
    NoPoolsFound,
    InsufficientOutput,
    SlippageExceeded,
    DeadlineExpired,
    PoolNotFound,
    InvalidTokenPair,
    NoLiquidityAvailable,
    QuoteFailed,
    InvalidAmount,
    EmptySplits,
    SplitAmountMismatch,
    Unauthorized,
}

/// The number under which an error is reported to callers.
pub open spec fn router_error_code(e: RouterError) -> u32 {
    match e {
        RouterError::AlreadyInitialized => 1,
        RouterError::NotInitialized => 2,
        RouterError::InvalidPath => 10,
        RouterError::PathTooLong => 11,
        RouterError::NoPoolsFound => 12,
        RouterError::InsufficientOutput => 13,
        RouterError::SlippageExceeded => 14,
        RouterError::DeadlineExpired => 15,
        RouterError::PoolNotFound => 20,
        RouterError::InvalidTokenPair => 21,
        RouterError::NoLiquidityAvailable => 22,
        RouterError::QuoteFailed => 30,
        RouterError::InvalidAmount => 31,
        RouterError::EmptySplits => 40,
        RouterError::SplitAmountMismatch => 41,
        RouterError::Unauthorized => 50,
    }
}

impl RouterError {
    /// The number under which this error is reported to callers.
    pub fn code(&self) -> (r: u32)
        ensures
            r == router_error_code(*self),
    {
        match self {
            RouterError::AlreadyInitialized => 1,
            RouterError::NotInitialized => 2,
            RouterError::InvalidPath => 10,
            RouterError::PathTooLong => 11,
            RouterError::NoPoolsFound => 12,
            RouterError::InsufficientOutput => 13,
            RouterError::SlippageExceeded => 14,
            RouterError::DeadlineExpired => 15,
            RouterError::PoolNotFound => 20,
            RouterError::InvalidTokenPair => 21,
            RouterError::NoLiquidityAvailable => 22,
            RouterError::QuoteFailed => 30,
            RouterError::InvalidAmount => 31,
            RouterError::EmptySplits => 40,
            RouterError::SplitAmountMismatch => 41,
            RouterError::Unauthorized => 50,
        }
    }
}

} // verus!
