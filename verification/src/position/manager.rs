use vstd::prelude::*;
use soroban_sdk::Env;
use crate::math::q64::{clip_i128, clip_u128, sat_add_i128, sat_sub_i128};
use crate::position::types::Position;
use crate::position::fees::{calculate_pending_fees, pending_fee};

verus! {

/// The position after crediting the fees pending at the given fee growth and
/// moving its checkpoints there.
pub open spec fn position_after_update(pos: Position, inside_0: u128, inside_1: u128) -> Position {
    Position {
        liquidity: pos.liquidity,
        fee_growth_inside_last_0: inside_0,
        fee_growth_inside_last_1: inside_1,
        tokens_owed_0: clip_u128(pos.tokens_owed_0 + pending_fee(pos.liquidity, inside_0, pos.fee_growth_inside_last_0)),
        tokens_owed_1: clip_u128(pos.tokens_owed_1 + pending_fee(pos.liquidity, inside_1, pos.fee_growth_inside_last_1)),
    }
}

/// Credits a position with the fees earned since its last checkpoint (saturating)
/// and moves its checkpoints to the current fee growth inside its range.
pub fn update_position(env: &Env, pos: &mut Position, fee_growth_inside_0: u128, fee_growth_inside_1: u128)
    ensures
        *final(pos) == position_after_update(*old(pos), fee_growth_inside_0, fee_growth_inside_1),
{
    let (fee_0, fee_1) = calculate_pending_fees(env, pos, fee_growth_inside_0, fee_growth_inside_1);
    pos.tokens_owed_0 = pos.tokens_owed_0.saturating_add(fee_0);
    pos.tokens_owed_1 = pos.tokens_owed_1.saturating_add(fee_1);
    pos.fee_growth_inside_last_0 = fee_growth_inside_0;
    pos.fee_growth_inside_last_1 = fee_growth_inside_1;
}

/// Updates a position's fees, then changes its liquidity by `liquidity_delta`
/// (saturating).
pub fn modify_position(
    env: &Env,
    pos: &mut Position,
    liquidity_delta: i128,
    fee_growth_inside_0: u128,
    fee_growth_inside_1: u128,
)
    requires
        liquidity_delta != i128::MIN,
    ensures
        *final(pos) == (Position {
            liquidity: clip_i128(old(pos).liquidity + liquidity_delta),
            ..position_after_update(*old(pos), fee_growth_inside_0, fee_growth_inside_1)
        }),
{
    update_position(env, pos, fee_growth_inside_0, fee_growth_inside_1);
    if liquidity_delta > 0 {
        pos.liquidity = sat_add_i128(pos.liquidity, liquidity_delta);
    } else if liquidity_delta < 0 {
        pos.liquidity = sat_sub_i128(pos.liquidity, -liquidity_delta);
    }
}

/// Whether a position has liquidity.
pub fn has_liquidity(pos: &Position) -> (r: bool)
    ensures
        r == (pos.liquidity > 0),
{
    pos.liquidity > 0
}

/// Whether a position has fees owed to it.
pub fn has_uncollected_fees(pos: &Position) -> (r: bool)
    ensures
        r == (pos.tokens_owed_0 > 0 || pos.tokens_owed_1 > 0),
{
    pos.tokens_owed_0 > 0 || pos.tokens_owed_1 > 0
}

/// Whether a position has neither liquidity nor fees owed.
pub fn is_empty(pos: &Position) -> (r: bool)
    ensures
        r == (pos.liquidity == 0 && pos.tokens_owed_0 == 0 && pos.tokens_owed_1 == 0),
{
    pos.liquidity == 0 && pos.tokens_owed_0 == 0 && pos.tokens_owed_1 == 0
}

/// Deducts collected amounts from the fees owed, flooring at zero.
pub fn clear_fees(pos: &mut Position, amount0: u128, amount1: u128)
    ensures
        *final(pos) == (Position {
            tokens_owed_0: if old(pos).tokens_owed_0 >= amount0 { (old(pos).tokens_owed_0 - amount0) as u128 } else { 0 },
            tokens_owed_1: if old(pos).tokens_owed_1 >= amount1 { (old(pos).tokens_owed_1 - amount1) as u128 } else { 0 },
            ..*old(pos)
        }),
{
    pos.tokens_owed_0 = pos.tokens_owed_0.saturating_sub(amount0);
    pos.tokens_owed_1 = pos.tokens_owed_1.saturating_sub(amount1);
}

/// Checks the bounds of a position: the lower tick below the upper one, a positive
/// spacing, and both ticks multiples of it. The first violated rule is reported.
pub fn validate_position_params(lower: i32, upper: i32, tick_spacing: i32) -> (r: Result<(), &'static str>)
    ensures
        lower >= upper ==> r == Err::<(), &str>("lower tick must be less than upper tick"),
        lower < upper && tick_spacing <= 0 ==> r == Err::<(), &str>("tick spacing must be positive"),
        lower < upper && tick_spacing > 0 && (lower as int) % (tick_spacing as int) != 0 ==> r == Err::<(), &str>(
            "lower tick must be aligned to tick spacing"),
        lower < upper && tick_spacing > 0 && (lower as int) % (tick_spacing as int) == 0 && (upper as int) % (tick_spacing as int) != 0
            ==> r == Err::<(), &str>("upper tick must be aligned to tick spacing"),
        r is Ok <==> (lower < upper && tick_spacing > 0 && (lower as int) % (tick_spacing as int) == 0 && (upper
            as int) % (tick_spacing as int) == 0),
{
    if lower >= upper {
        return Err("lower tick must be less than upper tick");
    }
    if tick_spacing <= 0 {
        return Err("tick spacing must be positive");
    }
    proof {
        crate::math::lemmas::lemma_neg_mod_zero(lower as int, tick_spacing as int);
        crate::math::lemmas::lemma_neg_mod_zero(upper as int, tick_spacing as int);
    }
    let lower_rem = lower.checked_rem(tick_spacing).unwrap();
    let upper_rem = upper.checked_rem(tick_spacing).unwrap();
    proof {
        vstd::arithmetic::div_mod::lemma_small_mod(0, tick_spacing as nat);
        assert(lower < 0 ==> (lower as int * -1) == -(lower as int));
        assert(upper < 0 ==> (upper as int * -1) == -(upper as int));
    }
    if lower_rem != 0 {
        return Err("lower tick must be aligned to tick spacing");
    }
    if upper_rem != 0 {
        return Err("upper tick must be aligned to tick spacing");
    }
    Ok(())
}

} // verus!
