//! Properties of the pool's operations that span several calls.
use vstd::prelude::*;
use crate::pool::logic::{
    active_creator_fee_bps, add_liquidity_outcome, aligned_range_of, collect_fees_outcome, pool_preview_outcome,
    pool_swap_outcome, pool_wf, position_info_outcome, remove_liquidity_outcome, swap_state_of,
};
use crate::pool::error::PoolError;
use crate::math::q64::clip_u128;
use crate::position::fees::pending_fee;
use crate::position::manager::position_after_update;
use crate::tick::fee_growth::fee_growth_inside_of;
use crate::pool::types::{PoolConfig, PoolState};
use crate::swap::laws::lemma_quote_matches_execution;
use crate::swap::types::PreviewError;
use crate::position::types::Position;
use crate::tick::types::{tick_of, TickInfo};

verus! {

/// Adding liquidity and then removing the same liquidity from the same position
/// at the same price pays back exactly the amounts that were paid in, and
/// restores the pool's active liquidity, the position's liquidity and the gross
/// and net liquidity of both boundary ticks (where none of them saturates).
pub proof fn lemma_add_then_remove_restores(
    st: PoolState,
    ticks: Map<i32, TickInfo>,
    pos: Position,
    lower_tick: i32,
    upper_tick: i32,
    amount0_desired: i128,
    amount1_desired: i128,
    amount0_min: i128,
    amount1_min: i128,
)
    requires
        pool_wf(st),
        pos.liquidity >= 0,
        add_liquidity_outcome(st, ticks, pos, lower_tick, upper_tick, amount0_desired, amount1_desired, amount0_min,
            amount1_min) is Ok,
        ({
            let (l, a0, a1, st2, m2, p2) = add_liquidity_outcome(st, ticks, pos, lower_tick, upper_tick,
                amount0_desired, amount1_desired, amount0_min, amount1_min)->Ok_0;
            let (lower, upper) = crate::pool::logic::aligned_range_of(st, lower_tick, upper_tick)->Ok_0;
            &&& st.liquidity + l <= i128::MAX
            &&& st.liquidity - l >= i128::MIN
            &&& pos.liquidity + l <= i128::MAX
            &&& tick_of(ticks, lower).liquidity_gross + l <= i128::MAX
            &&& tick_of(ticks, upper).liquidity_gross + l <= i128::MAX
            &&& tick_of(ticks, lower).liquidity_net + l <= i128::MAX
            &&& tick_of(ticks, upper).liquidity_net - l >= i128::MIN
        }),
    ensures
        ({
            let (l, a0, a1, st2, m2, p2) = add_liquidity_outcome(st, ticks, pos, lower_tick, upper_tick,
                amount0_desired, amount1_desired, amount0_min, amount1_min)->Ok_0;
            let (lower, upper) = crate::pool::logic::aligned_range_of(st, lower_tick, upper_tick)->Ok_0;
            match remove_liquidity_outcome(st2, m2, p2, lower_tick, upper_tick, l, 0, 0, false) {
                Ok((b0, b1, st3, m3, p3)) => {
                    &&& b0 == a0 && b1 == a1
                    &&& st3.liquidity == st.liquidity
                    &&& p3.liquidity == pos.liquidity
                    &&& tick_of(m3, lower).liquidity_gross == tick_of(ticks, lower).liquidity_gross
                    &&& tick_of(m3, lower).liquidity_net == tick_of(ticks, lower).liquidity_net
                    &&& tick_of(m3, upper).liquidity_gross == tick_of(ticks, upper).liquidity_gross
                    &&& tick_of(m3, upper).liquidity_net == tick_of(ticks, upper).liquidity_net
                },
                Err(_) => false,
            }
        }),
{
}

/// Collecting a position's fees a second time, with nothing traded in between,
/// pays nothing and leaves the position as the first collection left it.
pub proof fn lemma_collect_twice_pays_nothing(
    st: PoolState,
    ticks: Map<i32, TickInfo>,
    pos: Position,
    lower_tick: i32,
    upper_tick: i32,
)
    requires
        collect_fees_outcome(st, ticks, pos, lower_tick, upper_tick) is Ok,
    ensures
        ({
            let (f0, f1, p2) = collect_fees_outcome(st, ticks, pos, lower_tick, upper_tick)->Ok_0;
            collect_fees_outcome(st, ticks, p2, lower_tick, upper_tick) == Ok::<(u128, u128, Position), crate::pool::error::PoolError>((0, 0, p2))
        }),
{
    let (f0, f1, p2) = collect_fees_outcome(st, ticks, pos, lower_tick, upper_tick)->Ok_0;
    assert(p2.liquidity as int * 0 == 0);
    assert(crate::position::fees::pending_fee(p2.liquidity, f0, f0) == 0);
    assert(crate::position::fees::pending_fee(p2.liquidity, f1, f1) == 0);
}

/// A preview predicts a swap: when a swap through the pool succeeds, previewing
/// it on the same state with the same minimum output either reports exactly
/// the input used and the output of the swap, or rejects it for dust output or
/// for a slippage above the ceiling.
pub proof fn lemma_preview_matches_swap(
    config: PoolConfig,
    st: PoolState,
    ticks: Map<i32, TickInfo>,
    direction: Option<bool>,
    amount_in: i128,
    amount_out_min: i128,
    sqrt_price_limit_x64: u128,
    factory_reply: Option<bool>,
)
    requires
        pool_swap_outcome(config, st, ticks, direction, amount_in, amount_out_min, sqrt_price_limit_x64,
            factory_reply) is Ok,
    ensures
        ({
            let (res, st2, m2) = pool_swap_outcome(config, st, ticks, direction, amount_in, amount_out_min,
                sqrt_price_limit_x64, factory_reply)->Ok_0;
            match pool_preview_outcome(config, st, ticks, direction, amount_in, amount_out_min, sqrt_price_limit_x64) {
                Ok(p) => {
                    ||| p.is_valid && p.amount_in_used == res.amount_in && p.amount_out_expected == res.amount_out
                    ||| !p.is_valid && (p.error_message == Some(PreviewError::OutputDust) || p.error_message == Some(
                        PreviewError::SlippageMax))
                },
                Err(_) => false,
            }
        }),
{
    let zero_for_one = direction->Some_0;
    lemma_quote_matches_execution(ticks, swap_state_of(st), amount_in, zero_for_one, sqrt_price_limit_x64,
        config.fee_bps as i128, active_creator_fee_bps(config, factory_reply));
}

/// Collecting pays everything a position is owed: the fees owed before the
/// collection plus those pending at the current fee growth inside its range,
/// which is exactly what updating the position to that growth leaves owed, and
/// what reading the position reports as owed. It never pays less than was owed,
/// and a position without liquidity is paid exactly its owed fees. The position
/// keeps its liquidity, owes nothing afterwards, and its checkpoints move to the
/// current fee growth inside its range. Only a range whose ticks cannot be
/// snapped to the spacing is refused.
pub proof fn lemma_collect_pays_owed_plus_pending(
    st: PoolState,
    ticks: Map<i32, TickInfo>,
    pos: Position,
    lower_tick: i32,
    upper_tick: i32,
)
    ensures
        collect_fees_outcome(st, ticks, pos, lower_tick, upper_tick) is Ok <==> aligned_range_of(st, lower_tick,
            upper_tick) is Ok,
        collect_fees_outcome(st, ticks, pos, lower_tick, upper_tick) matches Ok((f0, f1, p2)) ==> ({
            let (lower, upper) = aligned_range_of(st, lower_tick, upper_tick)->Ok_0;
            let (g0, g1) = fee_growth_inside_of(ticks, lower, upper, st.current_tick, st.fee_growth_global_0,
                st.fee_growth_global_1);
            let updated = position_after_update(pos, g0, g1);
            &&& f0 == updated.tokens_owed_0 && f1 == updated.tokens_owed_1
            &&& f0 >= pos.tokens_owed_0 && f1 >= pos.tokens_owed_1
            &&& pos.liquidity <= 0 ==> f0 == pos.tokens_owed_0 && f1 == pos.tokens_owed_1
            &&& p2.tokens_owed_0 == 0 && p2.tokens_owed_1 == 0
            &&& p2.fee_growth_inside_last_0 == g0 && p2.fee_growth_inside_last_1 == g1
            &&& p2.liquidity == pos.liquidity
            &&& position_info_outcome(st, ticks, pos, lower, upper) is Ok ==> position_info_outcome(st, ticks, pos,
                lower, upper)->Ok_0.fees_owed_0 == f0 && position_info_outcome(st, ticks, pos, lower, upper)->Ok_0.fees_owed_1
                == f1
        }),
{
}

/// Adding liquidity moves the position's checkpoints to the fee growth inside
/// its range right after the tick updates, so nothing is pending on the new
/// liquidity: the fees owed afterwards are those owed before plus what was
/// pending on the old liquidity (for a position without liquidity, exactly those
/// owed before), and a collection right after the addition pays exactly that,
/// never fees earned before the liquidity was added.
pub proof fn lemma_add_liquidity_settles_fees(
    st: PoolState,
    ticks: Map<i32, TickInfo>,
    pos: Position,
    lower_tick: i32,
    upper_tick: i32,
    amount0_desired: i128,
    amount1_desired: i128,
    amount0_min: i128,
    amount1_min: i128,
)
    requires
        pool_wf(st),
    ensures
        add_liquidity_outcome(st, ticks, pos, lower_tick, upper_tick, amount0_desired, amount1_desired, amount0_min,
            amount1_min) matches Ok((l, a0, a1, st2, m2, p2)) ==> ({
            let (lower, upper) = aligned_range_of(st, lower_tick, upper_tick)->Ok_0;
            let (g0, g1) = fee_growth_inside_of(m2, lower, upper, st2.current_tick, st2.fee_growth_global_0,
                st2.fee_growth_global_1);
            &&& p2.fee_growth_inside_last_0 == g0 && p2.fee_growth_inside_last_1 == g1
            &&& p2.tokens_owed_0 == clip_u128(pos.tokens_owed_0 + pending_fee(pos.liquidity, g0,
                pos.fee_growth_inside_last_0))
            &&& p2.tokens_owed_1 == clip_u128(pos.tokens_owed_1 + pending_fee(pos.liquidity, g1,
                pos.fee_growth_inside_last_1))
            &&& pos.liquidity <= 0 ==> p2.tokens_owed_0 == pos.tokens_owed_0 && p2.tokens_owed_1 == pos.tokens_owed_1
            &&& collect_fees_outcome(st2, m2, p2, lower_tick, upper_tick) == Ok::<(u128, u128, Position), PoolError>((
                p2.tokens_owed_0,
                p2.tokens_owed_1,
                Position { tokens_owed_0: 0, tokens_owed_1: 0, ..p2 },
            ))
        }),
{
    match add_liquidity_outcome(st, ticks, pos, lower_tick, upper_tick, amount0_desired, amount1_desired, amount0_min,
        amount1_min) {
        Ok((l, a0, a1, st2, m2, p2)) => {
            assert(p2.liquidity as int * 0 == 0);
        },
        Err(_) => {},
    }
}

/// Removing liquidity credits the fees pending on the old liquidity before it
/// is lowered: afterwards the position owes what it owed before plus what was
/// pending at the fee growth inside its range, its checkpoints are at that
/// growth, and its liquidity is lower by the amount removed. So the fees owed
/// after the removal are exactly what a collection just before it would have
/// paid, and never less than was owed before; after a full removal, a
/// collection pays exactly that.
pub proof fn lemma_remove_liquidity_credits_pending(
    st: PoolState,
    ticks: Map<i32, TickInfo>,
    pos: Position,
    lower_tick: i32,
    upper_tick: i32,
    liquidity: i128,
    amount0_min: i128,
    amount1_min: i128,
    locked: bool,
)
    requires
        pool_wf(st),
    ensures
        remove_liquidity_outcome(st, ticks, pos, lower_tick, upper_tick, liquidity, amount0_min, amount1_min, locked)
            matches Ok((a0, a1, st2, m2, p2)) ==> ({
            let (lower, upper) = aligned_range_of(st, lower_tick, upper_tick)->Ok_0;
            let (g0, g1) = fee_growth_inside_of(ticks, lower, upper, st.current_tick, st.fee_growth_global_0,
                st.fee_growth_global_1);
            &&& p2.tokens_owed_0 == clip_u128(pos.tokens_owed_0 + pending_fee(pos.liquidity, g0,
                pos.fee_growth_inside_last_0))
            &&& p2.tokens_owed_1 == clip_u128(pos.tokens_owed_1 + pending_fee(pos.liquidity, g1,
                pos.fee_growth_inside_last_1))
            &&& p2.fee_growth_inside_last_0 == g0 && p2.fee_growth_inside_last_1 == g1
            &&& p2.liquidity == pos.liquidity - liquidity
            &&& p2.tokens_owed_0 >= pos.tokens_owed_0 && p2.tokens_owed_1 >= pos.tokens_owed_1
            &&& (collect_fees_outcome(st, ticks, pos, lower_tick, upper_tick) matches Ok((f0, f1, q)) && f0
                == p2.tokens_owed_0 && f1 == p2.tokens_owed_1)
            &&& liquidity == pos.liquidity ==> collect_fees_outcome(st2, m2, p2, lower_tick, upper_tick) == Ok::<
                (u128, u128, Position), PoolError>((
                p2.tokens_owed_0,
                p2.tokens_owed_1,
                Position { tokens_owed_0: 0, tokens_owed_1: 0, ..p2 },
            ))
        }),
{
}

/// A preview through the pool rejects a quoted swap for slippage only when the
/// quote's output falls short of its input by more than `MAX_SLIPPAGE_BPS` basis
/// points of the input: a quote whose output is at least its input, the
/// caller's minimum and the dust minimum is reported valid, with the quote's
/// input used and output.
pub proof fn lemma_pool_preview_accepts_gainful_quote(
    config: PoolConfig,
    st: PoolState,
    ticks: Map<i32, TickInfo>,
    zero_for_one: bool,
    amount_in: i128,
    min_amount_out: i128,
    sqrt_price_limit_x64: u128,
)
    ensures
        amount_in >= crate::math::constants::MIN_SWAP_AMOUNT && st.liquidity > 0 ==> (crate::swap::engine::quote_outcome(
            ticks, swap_state_of(st), amount_in, zero_for_one, sqrt_price_limit_x64, config.fee_bps as i128) matches Ok(
            q) ==> q.1 >= amount_in && q.1 >= min_amount_out && q.1 >= crate::math::constants::MIN_OUTPUT_AMOUNT ==> (
            pool_preview_outcome(config, st, ticks, Some(zero_for_one), amount_in, min_amount_out, sqrt_price_limit_x64)
                matches Ok(p) && p.is_valid && p.amount_in_used == q.0 && p.amount_out_expected == q.1)),
        pool_preview_outcome(config, st, ticks, Some(zero_for_one), amount_in, min_amount_out, sqrt_price_limit_x64)
            matches Ok(p) ==> p.error_message == Some(PreviewError::SlippageMax) ==> ({
            let q = crate::swap::engine::quote_outcome(ticks, swap_state_of(st), amount_in, zero_for_one,
                sqrt_price_limit_x64, config.fee_bps as i128)->Ok_0;
            q.1 < amount_in && (amount_in - q.1) * 10000 > crate::math::constants::MAX_SLIPPAGE_BPS * amount_in
        }),
{
    if amount_in >= crate::math::constants::MIN_SWAP_AMOUNT {
        match crate::swap::engine::quote_outcome(ticks, swap_state_of(st), amount_in, zero_for_one,
            sqrt_price_limit_x64, config.fee_bps as i128) {
            Ok(q) => {
                crate::swap::laws::lemma_preview_rejects_slippage_only_on_loss(amount_in, min_amount_out, q);
            },
            Err(_) => {},
        }
    }
}

/// A swap through the pool leaves the pool's active liquidity equal to the
/// liquidity it had before, moved by the net liquidity of exactly the ticks that
/// the swap crossed (and whose fee growth outside it flipped): each tick's net
/// is added when the price rose through it (token1 in) and subtracted when it
/// fell through it (token0 in).
pub proof fn lemma_pool_swap_liquidity_follows_crossings(
    config: PoolConfig,
    st: PoolState,
    ticks: Map<i32, TickInfo>,
    direction: Option<bool>,
    amount_in: i128,
    amount_out_min: i128,
    sqrt_price_limit_x64: u128,
    factory_reply: Option<bool>,
)
    ensures
        pool_swap_outcome(config, st, ticks, direction, amount_in, amount_out_min, sqrt_price_limit_x64, factory_reply)
            matches Ok((res, st2, m2)) ==> exists|cs: Seq<crate::swap::engine::Crossing>| #![trigger crate::swap::engine::apply_crossings(ticks, cs)]
            m2 == crate::swap::engine::apply_crossings(ticks, cs) && st2.liquidity
            == crate::swap::laws::liquidity_after_crossings(ticks, st.liquidity, cs, direction->Some_0),
{
    match pool_swap_outcome(config, st, ticks, direction, amount_in, amount_out_min, sqrt_price_limit_x64,
        factory_reply) {
        Ok((res, st2, m2)) => {
            let zero_for_one = direction->Some_0;
            let p = crate::pool::logic::pool_swap_params(config, st, zero_for_one, sqrt_price_limit_x64, factory_reply);
            crate::swap::laws::lemma_swap_liquidity_follows_crossings(ticks, swap_state_of(st), amount_in, p);
            let cs = crate::swap::engine::swap_outcome(ticks, swap_state_of(st), amount_in, p)->Ok_0.4;
            assert(m2 == crate::swap::engine::apply_crossings(ticks, cs));
        },
        Err(_) => {},
    }
}

/// Adding liquidity `l` over `[lower, upper)` raises the pool's active liquidity
/// by `l` exactly when the current tick lies in the range (and leaves it
/// otherwise), raises the position's liquidity by `l`, raises the gross
/// liquidity of both boundary ticks by `l`, and moves their net liquidity by `+l`
/// at the lower tick and `-l` at the upper one (all where nothing saturates).
/// The price, the current tick and the fee growth stay as they were.
pub proof fn lemma_add_liquidity_moves_liquidity(
    st: PoolState,
    ticks: Map<i32, TickInfo>,
    pos: Position,
    lower_tick: i32,
    upper_tick: i32,
    amount0_desired: i128,
    amount1_desired: i128,
    amount0_min: i128,
    amount1_min: i128,
)
    requires
        pool_wf(st),
    ensures
        add_liquidity_outcome(st, ticks, pos, lower_tick, upper_tick, amount0_desired, amount1_desired, amount0_min,
            amount1_min) matches Ok((l, a0, a1, st2, m2, p2)) ==> ({
            let (lower, upper) = aligned_range_of(st, lower_tick, upper_tick)->Ok_0;
            &&& l > 0
            &&& st.liquidity + l <= i128::MAX ==> st2.liquidity == (if st.current_tick >= lower && st.current_tick < upper {
                st.liquidity + l
            } else {
                st.liquidity as int
            })
            &&& pos.liquidity + l <= i128::MAX ==> p2.liquidity == pos.liquidity + l
            &&& tick_of(ticks, lower).liquidity_gross + l <= i128::MAX ==> tick_of(m2, lower).liquidity_gross == tick_of(
                ticks, lower).liquidity_gross + l
            &&& tick_of(ticks, upper).liquidity_gross + l <= i128::MAX ==> tick_of(m2, upper).liquidity_gross == tick_of(
                ticks, upper).liquidity_gross + l
            &&& tick_of(ticks, lower).liquidity_net + l <= i128::MAX ==> tick_of(m2, lower).liquidity_net == tick_of(
                ticks, lower).liquidity_net + l
            &&& tick_of(ticks, upper).liquidity_net - l >= i128::MIN ==> tick_of(m2, upper).liquidity_net == tick_of(
                ticks, upper).liquidity_net - l
            &&& st2.sqrt_price_x64 == st.sqrt_price_x64 && st2.current_tick == st.current_tick
            &&& st2.fee_growth_global_0 == st.fee_growth_global_0 && st2.fee_growth_global_1 == st.fee_growth_global_1
        }),
{
}

/// Removing liquidity `l` over `[lower, upper)` lowers the pool's active
/// liquidity by `l` exactly when the current tick lies in the range (and leaves
/// it otherwise), lowers the gross liquidity of both boundary ticks by `l`, and
/// moves their net liquidity by `-l` at the lower tick and `+l` at the upper one
/// (all where nothing saturates and the two ticks differ). The price, the current tick and the fee growth
/// stay as they were.
pub proof fn lemma_remove_liquidity_moves_liquidity(
    st: PoolState,
    ticks: Map<i32, TickInfo>,
    pos: Position,
    lower_tick: i32,
    upper_tick: i32,
    liquidity: i128,
    amount0_min: i128,
    amount1_min: i128,
    locked: bool,
)
    requires
        pool_wf(st),
    ensures
        remove_liquidity_outcome(st, ticks, pos, lower_tick, upper_tick, liquidity, amount0_min, amount1_min, locked)
            matches Ok((a0, a1, st2, m2, p2)) ==> ({
            let (lower, upper) = aligned_range_of(st, lower_tick, upper_tick)->Ok_0;
            let l = liquidity;
            &&& st.liquidity - l >= i128::MIN ==> st2.liquidity == (if st.current_tick >= lower && st.current_tick < upper {
                st.liquidity - l
            } else {
                st.liquidity as int
            })
            &&& lower != upper && tick_of(ticks, lower).liquidity_gross - l >= i128::MIN ==> tick_of(m2, lower).liquidity_gross == tick_of(
                ticks, lower).liquidity_gross - l
            &&& lower != upper && tick_of(ticks, upper).liquidity_gross - l >= i128::MIN ==> tick_of(m2, upper).liquidity_gross == tick_of(
                ticks, upper).liquidity_gross - l
            &&& lower != upper && tick_of(ticks, lower).liquidity_net - l >= i128::MIN ==> tick_of(m2, lower).liquidity_net == tick_of(
                ticks, lower).liquidity_net - l
            &&& lower != upper && tick_of(ticks, upper).liquidity_net + l <= i128::MAX ==> tick_of(m2, upper).liquidity_net == tick_of(
                ticks, upper).liquidity_net + l
            &&& st2.sqrt_price_x64 == st.sqrt_price_x64 && st2.current_tick == st.current_tick
            &&& st2.fee_growth_global_0 == st.fee_growth_global_0 && st2.fee_growth_global_1 == st.fee_growth_global_1
        }),
{
}

} // verus!
