use vstd::prelude::*;

verus! {

/// Why a swap cannot be carried out.
#[derive(Clone, Copy, Debug, PartialEq, Eq, Structural)]
pub enum SwapError {
    /// The input amount is below the minimum swap amount.
    AmountTooSmall,
    /// The pool has no active liquidity.
    NoLiquidity,
    /// The fee leaves nothing of the input.
    FeeTooHigh,
    /// A step fee came out negative or above the step input.
    InvalidFee,
    /// The swap would produce less than the minimum output.
    OutputTooSmall,
    /// A tick boundary outside the supported range was reached.
    TickOutOfRange,
    /// An intermediate price product does not fit in 128 bits.
    ArithmeticOverflow,
}

/// The message under which a swap is aborted.
pub open spec fn swap_error_message(e: SwapError) -> &'static str {
    match e {
        SwapError::AmountTooSmall => "swap amount too small",
        SwapError::NoLiquidity => "no liquidity available",
        SwapError::FeeTooHigh => "fee too high",
        SwapError::InvalidFee => "invalid fee calculation",
        SwapError::OutputTooSmall => "output amount too small",
        SwapError::TickOutOfRange => "tick out of range",
        SwapError::ArithmeticOverflow => "arithmetic overflow",
    }
}

impl SwapError {
    /// The message under which the swap is aborted.
    pub fn message(&self) -> (r: &'static str)
        ensures
            r == swap_error_message(*self),
    {
        match self {
            SwapError::AmountTooSmall => "swap amount too small",
            SwapError::NoLiquidity => "no liquidity available",
            SwapError::FeeTooHigh => "fee too high",
            SwapError::InvalidFee => "invalid fee calculation",
            SwapError::OutputTooSmall => "output amount too small",
            SwapError::TickOutOfRange => "tick out of range",
            SwapError::ArithmeticOverflow => "arithmetic overflow",
        }
    }
}

/// Why a previewed swap would be rejected.
#[derive(Clone, Copy, Debug, PartialEq, Eq, Structural)]
pub enum PreviewError {
    /// The input amount is below the minimum swap amount.
    AmountLow,
    /// The pool has no active liquidity.
    NoLiquidity,
    /// The output is below the caller's minimum.
    SlippageHigh,
    /// The output is below the minimum output amount.
    OutputDust,
    /// The difference between input and output exceeds the slippage ceiling.
    SlippageMax,
    /// The input token is not one of the pool's tokens.
    BadToken,
}

impl PreviewError {
    /// The short code reported for this rejection.
    pub fn code(&self) -> (r: &'static str)
        ensures
            *self == PreviewError::AmountLow ==> r == "AMT_LOW",
            *self == PreviewError::NoLiquidity ==> r == "NO_LIQ",
            *self == PreviewError::SlippageHigh ==> r == "SLIP_HI",
            *self == PreviewError::OutputDust ==> r == "OUT_DUST",
            *self == PreviewError::SlippageMax ==> r == "SLIP_MAX",
            *self == PreviewError::BadToken ==> r == "BAD_TOKEN",
    {
        match self {
            PreviewError::AmountLow => "AMT_LOW",
            PreviewError::NoLiquidity => "NO_LIQ",
            PreviewError::SlippageHigh => "SLIP_HI",
            PreviewError::OutputDust => "OUT_DUST",
            PreviewError::SlippageMax => "SLIP_MAX",
            PreviewError::BadToken => "BAD_TOKEN",
        }
    }
}

/// The outcome of an executed swap.
#[derive(Clone, Copy, Debug)]
pub struct SwapResult {
    pub amount_in: i128,
    pub amount_out: i128,
    pub current_tick: i32,
    pub sqrt_price_x64: u128,
}

impl Default for SwapResult {
    fn default() -> (r: Self)
        ensures
            r == (SwapResult { amount_in: 0, amount_out: 0, current_tick: 0, sqrt_price_x64: 0 }),
    {
        Self { amount_in: 0, amount_out: 0, current_tick: 0, sqrt_price_x64: 0 }
    }
}

/// The outcome of a swap preview.
#[derive(Clone, Copy, Debug)]
pub struct PreviewResult {
    pub amount_in_used: i128,
    pub amount_out_expected: i128,
    pub fee_paid: i128,
    pub price_impact_bps: i128,
    pub is_valid: bool,
    pub error_message: Option<PreviewError>,
}

impl Default for PreviewResult {
    fn default() -> (r: Self)
        ensures
            r == (PreviewResult {
                amount_in_used: 0,
                amount_out_expected: 0,
                fee_paid: 0,
                price_impact_bps: 0,
                is_valid: false,
                error_message: None,
            }),
    {
        Self {
            amount_in_used: 0,
            amount_out_expected: 0,
            fee_paid: 0,
            price_impact_bps: 0,
            is_valid: false,
            error_message: None,
        }
    }
}

impl PreviewResult {
    /// A successful preview.
    pub fn valid(amount_in_used: i128, amount_out_expected: i128, fee_paid: i128, price_impact_bps: i128) -> (r: Self)
        ensures
            r == (PreviewResult {
                amount_in_used,
                amount_out_expected,
                fee_paid,
                price_impact_bps,
                is_valid: true,
                error_message: None,
            }),
    {
        Self { amount_in_used, amount_out_expected, fee_paid, price_impact_bps, is_valid: true, error_message: None }
    }

    /// A rejected preview.
    pub fn invalid(error: PreviewError) -> (r: Self)
        ensures
            r == (PreviewResult {
                amount_in_used: 0,
                amount_out_expected: 0,
                fee_paid: 0,
                price_impact_bps: 0,
                is_valid: false,
                error_message: Some(error),
            }),
    {
        Self {
            amount_in_used: 0,
            amount_out_expected: 0,
            fee_paid: 0,
            price_impact_bps: 0,
            is_valid: false,
            error_message: Some(error),
        }
    }
}

} // verus!
