use vstd::prelude::*;
use soroban_sdk::Env;
use crate::math::constants::two64;
use crate::math::q64::{clip_u128, mul_div, wrap_sub_u128, ONE_X64};
use crate::position::types::Position;

verus! {

/// Fees earned by `liquidity` since the checkpoint `inside_last`:
/// `liquidity * (inside_now - inside_last mod 2^128) / 2^64`, computed at full
/// width and saturating; nothing for a position without liquidity.
pub open spec fn pending_fee(liquidity: i128, inside_now: u128, inside_last: u128) -> u128 {
    if liquidity <= 0 {
        0
    } else {
        clip_u128((liquidity as int * wrap_sub_u128(inside_now, inside_last) as int) / two64())
    }
}

/// Fees a position has earned since its last checkpoint, per token, given the
/// current fee growth inside its range.
pub fn calculate_pending_fees(
    env: &Env,
    pos: &Position,
    fee_growth_inside_0: u128,
    fee_growth_inside_1: u128,
) -> (r: (u128, u128))
    ensures
        r == (pending_fee(pos.liquidity, fee_growth_inside_0, pos.fee_growth_inside_last_0),
            pending_fee(pos.liquidity, fee_growth_inside_1, pos.fee_growth_inside_last_1)),
{
    if pos.liquidity <= 0 {
        return (0, 0);
    }
    let liquidity_u = pos.liquidity as u128;
    let delta_0 = fee_growth_inside_0.wrapping_sub(pos.fee_growth_inside_last_0);
    let delta_1 = fee_growth_inside_1.wrapping_sub(pos.fee_growth_inside_last_1);
    let pending_0 = mul_div(env, liquidity_u, delta_0, ONE_X64);
    let pending_1 = mul_div(env, liquidity_u, delta_1, ONE_X64);
    (pending_0, pending_1)
}

} // verus!
