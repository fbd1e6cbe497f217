//! Tick state: liquidity references, fee growth outside, crossing and search.
pub mod types;
pub mod update;
pub mod fee_growth;
pub mod laws;

pub use types::{TickInfo, TickTable};
pub use update::{align_tick, cross_tick, find_next_initialized_tick, is_aligned_tick, is_valid_tick, update_tick};
pub use fee_growth::get_fee_growth_inside;
pub use crate::math::snap_tick_to_spacing;
