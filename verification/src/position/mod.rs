//! Liquidity positions and their fee accounting.
pub mod types;
pub mod manager;
pub mod fees;
pub mod laws;

pub use types::{Position, PositionInfo};
pub use manager::{
    clear_fees, has_liquidity, has_uncollected_fees, is_empty, modify_position, update_position,
    validate_position_params,
};
pub use fees::calculate_pending_fees;
