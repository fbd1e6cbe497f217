//! The multi-tick swap engine and swap previews.
pub mod types;
pub mod engine;
pub mod laws;

pub use types::{PreviewError, PreviewResult, SwapError, SwapResult};
pub use engine::{engine_swap, quote_swap, validate_and_preview_swap, SwapState};
