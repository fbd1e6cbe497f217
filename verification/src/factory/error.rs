use vstd::prelude::*;

verus! {

/// Why the factory rejects a call.
#[derive(Clone, Copy, Debug, PartialEq, Eq, Structural)]
pub enum FactoryError {
    AlreadyInitialized,
    NotInitialized,
    PoolAlreadyExists,
    InvalidTokenPair,
    InvalidFeeTier,
    InvalidTickSpacing,
    InvalidTickRange,
    InvalidInitialPrice,
    InvalidCreatorFee,
    InsufficientInitialLiquidity,
    InvalidLockDuration,
    LiquidityStillLocked,
    NotPoolCreator,
    CreatorFeeRevoked,
    CreatorLockNotFound,
    Unauthorized,
}

/// The number under which an error is reported to callers.
pub open spec fn factory_error_code(e: FactoryError) -> u32 {
    match e {
        FactoryError::AlreadyInitialized => 1,
        FactoryError::NotInitialized => 2,
        FactoryError::PoolAlreadyExists => 10,
        FactoryError::InvalidTokenPair => 11,
        FactoryError::InvalidFeeTier => 12,
        FactoryError::InvalidTickSpacing => 13,
        FactoryError::InvalidTickRange => 14,
        FactoryError::InvalidInitialPrice => 15,
        FactoryError::InvalidCreatorFee => 16,
        FactoryError::InsufficientInitialLiquidity => 20,
        FactoryError::InvalidLockDuration => 21,
        FactoryError::LiquidityStillLocked => 22,
        FactoryError::NotPoolCreator => 30,
        FactoryError::CreatorFeeRevoked => 31,
        FactoryError::CreatorLockNotFound => 32,
        FactoryError::Unauthorized => 50,
    }
}

impl FactoryError {
    /// The number under which this error is reported to callers.
    pub fn code(&self) -> (r: u32)
        ensures
            r == factory_error_code(*self),
    {
        match self {
            FactoryError::AlreadyInitialized => 1,
            FactoryError::NotInitialized => 2,
            FactoryError::PoolAlreadyExists => 10,
            FactoryError::InvalidTokenPair => 11,
            FactoryError::InvalidFeeTier => 12,
            FactoryError::InvalidTickSpacing => 13,
            FactoryError::InvalidTickRange => 14,
            FactoryError::InvalidInitialPrice => 15,
            FactoryError::InvalidCreatorFee => 16,
            FactoryError::InsufficientInitialLiquidity => 20,
            FactoryError::InvalidLockDuration => 21,
            FactoryError::LiquidityStillLocked => 22,
            FactoryError::NotPoolCreator => 30,
            FactoryError::CreatorFeeRevoked => 31,
            FactoryError::CreatorLockNotFound => 32,
            FactoryError::Unauthorized => 50,
        }
    }
}

} // verus!
