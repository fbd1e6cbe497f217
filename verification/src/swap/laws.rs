//! Properties of the swap engine that hold for every input.
use vstd::prelude::*;
use crate::tick::types::{tick_of, TickInfo};
use crate::math::q64::clip_i128;
use crate::swap::engine::{
    effective_limit, exec_params, initial_step_state, quote_outcome, quote_params, swap_iteration, swap_outcome, swap_run,
    preview_outcome, slippage_bps, trunc_div, Crossing, StepOutcome, StepState, SwapParams, SwapState,
};
use crate::swap::types::PreviewError;
use crate::math::constants::{two64, MAX_SLIPPAGE_BPS, MAX_SWAP_ITERATIONS, MIN_OUTPUT_AMOUNT, MIN_SWAP_AMOUNT};
use crate::math::sqrt_price::lemma_next_price_from_input_direction;

verus! {

/// Whether a price is on the permitted side of the swap's price limit.
pub open spec fn within_limit(price: u128, p: SwapParams) -> bool {
    if p.zero_for_one { price >= effective_limit(p) } else { price <= effective_limit(p) }
}

/// Every state a step leads to is at the starting price or within the limit.
proof fn lemma_iteration_within_limit(m: Map<i32, TickInfo>, s: StepState, p: SwapParams, start: u128)
    requires
        s.sqrt_price == start || within_limit(s.sqrt_price, p),
    ensures
        match swap_iteration(m, s, p) {
            StepOutcome::Continue(s2, c) => s2.sqrt_price == start || within_limit(s2.sqrt_price, p),
            StepOutcome::Stop(s2) => s2.sqrt_price == start || within_limit(s2.sqrt_price, p),
            StepOutcome::Fail(e) => true,
        },
{
}

/// Every state a run ends in is at the starting price or within the limit.
proof fn lemma_run_within_limit(m: Map<i32, TickInfo>, s: StepState, p: SwapParams, fuel: nat, start: u128)
    requires
        s.sqrt_price == start || within_limit(s.sqrt_price, p),
    ensures
        swap_run(m, s, p, fuel) matches Ok((s2, cs)) ==> s2.sqrt_price == start || within_limit(s2.sqrt_price, p),
    decreases fuel,
{
    if fuel > 0 {
        lemma_iteration_within_limit(m, s, p, start);
        match swap_iteration(m, s, p) {
            StepOutcome::Continue(s2, c) => lemma_run_within_limit(m, s2, p, (fuel - 1) as nat, start),
            _ => {},
        }
    }
}

/// A swap never moves the price past its limit: the final price either equals
/// the starting price or lies on the permitted side of the limit (at or above it
/// when selling token0, at or below it when selling token1).
pub proof fn lemma_swap_respects_price_limit(m: Map<i32, TickInfo>, st: SwapState, amount: i128, p: SwapParams)
    ensures
        swap_outcome(m, st, amount, p) matches Ok((st2, ain, aout, cf, cs)) ==> st2.sqrt_price_x64 == st.sqrt_price_x64
            || within_limit(st2.sqrt_price_x64, p),
{
    lemma_run_within_limit(m, initial_step_state(st, amount), p, crate::math::constants::MAX_SWAP_ITERATIONS as nat,
        st.sqrt_price_x64);
}

/// Two run states on the same price path: they agree on everything but fee
/// growth and creator fee.
pub open spec fn same_path(a: StepState, b: StepState) -> bool {
    &&& a.amount_remaining == b.amount_remaining
    &&& a.amount_out_total == b.amount_out_total
    &&& a.sqrt_price == b.sqrt_price
    &&& a.liquidity == b.liquidity
    &&& a.current_tick == b.current_tick
}

/// Two runs in the same market: same direction, limit, fee and spacing; they may
/// differ in the creator fee, and the second aborts on invalid fees only if the
/// first does.
pub open spec fn same_market(p1: SwapParams, p2: SwapParams) -> bool {
    &&& p1.zero_for_one == p2.zero_for_one
    &&& p1.sqrt_price_limit_x64 == p2.sqrt_price_limit_x64
    &&& p1.fee_bps == p2.fee_bps
    &&& p1.tick_spacing == p2.tick_spacing
    &&& (p2.allow_panic ==> p1.allow_panic)
}

/// A step that does not abort in the first run takes the second run along the
/// same price path.
proof fn lemma_iteration_same_path(m: Map<i32, TickInfo>, a: StepState, b: StepState, p1: SwapParams, p2: SwapParams)
    requires
        same_path(a, b),
        same_market(p1, p2),
    ensures
        match swap_iteration(m, a, p1) {
            StepOutcome::Continue(a2, c1) => swap_iteration(m, b, p2) matches StepOutcome::Continue(b2, c2) && same_path(a2, b2),
            StepOutcome::Stop(a2) => swap_iteration(m, b, p2) matches StepOutcome::Stop(b2) && same_path(a2, b2),
            StepOutcome::Fail(e) => true,
        },
{
}

/// A run that does not abort in the first setting ends on the same price path
/// in the second.
proof fn lemma_run_same_path(m: Map<i32, TickInfo>, a: StepState, b: StepState, p1: SwapParams, p2: SwapParams, fuel: nat)
    requires
        same_path(a, b),
        same_market(p1, p2),
    ensures
        swap_run(m, a, p1, fuel) matches Ok((a2, cs1)) ==> swap_run(m, b, p2, fuel) matches Ok((b2, cs2)) && same_path(a2, b2),
    decreases fuel,
{
    if fuel > 0 {
        lemma_iteration_same_path(m, a, b, p1, p2);
        match swap_iteration(m, a, p1) {
            StepOutcome::Continue(a2, c1) => {
                match swap_iteration(m, b, p2) {
                    StepOutcome::Continue(b2, c2) => lemma_run_same_path(m, a2, b2, p1, p2, (fuel - 1) as nat),
                    _ => {},
                }
            },
            _ => {},
        }
    }
}

/// A quote predicts an executed swap exactly: whenever executing a swap succeeds,
/// quoting the same swap on the same state reports the same input used, the same
/// output and the same final price, whatever the creator fee.
pub proof fn lemma_quote_matches_execution(
    m: Map<i32, TickInfo>,
    st: SwapState,
    amount: i128,
    zero_for_one: bool,
    sqrt_price_limit_x64: u128,
    fee_bps: i128,
    creator_fee_bps: i128,
)
    requires
        amount >= MIN_SWAP_AMOUNT,
        st.liquidity > 0,
    ensures
        swap_outcome(m, st, amount, exec_params(st, zero_for_one, sqrt_price_limit_x64, fee_bps, creator_fee_bps)) matches Ok(
            (st2, ain, aout, cf, cs)) ==> quote_outcome(m, st, amount, zero_for_one, sqrt_price_limit_x64, fee_bps) == Ok::<
            (i128, i128, u128),
            crate::swap::types::SwapError,
        >((ain, aout, st2.sqrt_price_x64)),
{
    let pe = exec_params(st, zero_for_one, sqrt_price_limit_x64, fee_bps, creator_fee_bps);
    let pq = quote_params(st, zero_for_one, sqrt_price_limit_x64, fee_bps);
    let s0 = initial_step_state(st, amount);
    lemma_run_same_path(m, s0, s0, pe, pq, MAX_SWAP_ITERATIONS as nat);
}


/// Whether `price` is at `start` or past it in the swap direction: at or below
/// it when selling token0, at or above it when selling token1.
pub open spec fn not_behind(price: u128, start: u128, zero_for_one: bool) -> bool {
    if zero_for_one { price <= start } else { price >= start }
}

/// Whether every state of a run, from `s` on for `fuel` steps, has liquidity
/// below 2^64 (so that `liquidity << 64` does not wrap).
pub open spec fn run_liquidity_below_q64(m: Map<i32, TickInfo>, s: StepState, p: SwapParams, fuel: nat) -> bool
    decreases fuel,
{
    &&& s.liquidity < two64()
    &&& fuel > 0 ==> match swap_iteration(m, s, p) {
        StepOutcome::Continue(s2, c) => run_liquidity_below_q64(m, s2, p, (fuel - 1) as nat),
        _ => true,
    }
}

/// One step never moves the price against the swap direction (for token0 input,
/// while `liquidity << 64` does not wrap).
proof fn lemma_iteration_direction(m: Map<i32, TickInfo>, s: StepState, p: SwapParams)
    requires
        p.zero_for_one ==> s.liquidity < two64(),
    ensures
        match swap_iteration(m, s, p) {
            StepOutcome::Continue(s2, c) => not_behind(s2.sqrt_price, s.sqrt_price, p.zero_for_one),
            StepOutcome::Stop(s2) => not_behind(s2.sqrt_price, s.sqrt_price, p.zero_for_one),
            StepOutcome::Fail(e) => true,
        },
{
    let fee_divisor = 10000 - p.fee_bps;
    if s.amount_remaining > 0 && s.liquidity > 0 && fee_divisor > 0 {
        let available = (crate::math::q64::clip_i128(s.amount_remaining * fee_divisor) / 10000) as i128;
        if available > 0 {
            lemma_next_price_from_input_direction(s.sqrt_price, s.liquidity as u128, available as u128, p.zero_for_one);
        }
    }
}

/// A run never ends with the price behind where it started.
proof fn lemma_run_direction(m: Map<i32, TickInfo>, s: StepState, p: SwapParams, fuel: nat, start: u128)
    requires
        not_behind(s.sqrt_price, start, p.zero_for_one),
        p.zero_for_one ==> run_liquidity_below_q64(m, s, p, fuel),
    ensures
        swap_run(m, s, p, fuel) matches Ok((s2, cs)) ==> not_behind(s2.sqrt_price, start, p.zero_for_one),
    decreases fuel,
{
    if fuel > 0 {
        lemma_iteration_direction(m, s, p);
        match swap_iteration(m, s, p) {
            StepOutcome::Continue(s2, c) => lemma_run_direction(m, s2, p, (fuel - 1) as nat, start),
            _ => {},
        }
    }
}

/// A swap moves the price only in its direction: selling token1 never lowers
/// the price, and selling token0 never raises it, provided the liquidity stays
/// below 2^64 along the run (above it `liquidity << 64` wraps in the token0
/// price formula).
pub proof fn lemma_swap_moves_price_in_direction(m: Map<i32, TickInfo>, st: SwapState, amount: i128, p: SwapParams)
    requires
        p.zero_for_one ==> run_liquidity_below_q64(m, initial_step_state(st, amount), p, MAX_SWAP_ITERATIONS as nat),
    ensures
        swap_outcome(m, st, amount, p) matches Ok((st2, ain, aout, cf, cs)) ==> not_behind(st2.sqrt_price_x64,
            st.sqrt_price_x64, p.zero_for_one),
{
    lemma_run_direction(m, initial_step_state(st, amount), p, MAX_SWAP_ITERATIONS as nat, st.sqrt_price_x64);
}

/// Crossing a tick moves the active liquidity by the tick's net liquidity: a
/// step that crosses a tick while the price rises (token1 in) adds its
/// `liquidity_net` and makes it the current tick; one that crosses it while the
/// price falls (token0 in) subtracts it and makes the tick below current (both
/// saturating at the bounds of `i128`). A step that crosses nothing leaves the
/// liquidity and the current tick as they were.
pub proof fn lemma_crossing_applies_liquidity_net(m: Map<i32, TickInfo>, s: StepState, p: SwapParams)
    ensures
        swap_iteration(m, s, p) matches StepOutcome::Continue(s2, Some(c)) ==> (if p.zero_for_one {
            s2.liquidity == clip_i128(s.liquidity - tick_of(m, c.tick).liquidity_net) && s2.current_tick == c.tick - 1
        } else {
            s2.liquidity == clip_i128(s.liquidity + tick_of(m, c.tick).liquidity_net) && s2.current_tick == c.tick
        }),
        swap_iteration(m, s, p) matches StepOutcome::Continue(s2, None) ==> s2.liquidity == s.liquidity
            && s2.current_tick == s.current_tick,
        swap_iteration(m, s, p) matches StepOutcome::Stop(s2) ==> s2.liquidity == s.liquidity
            && s2.current_tick == s.current_tick,
{
}

/// The active liquidity after the ticks `cs` are crossed in order, starting from
/// `liquidity`: each crossing adds the tick's net liquidity when the price rises
/// and subtracts it when the price falls, saturating at the bounds of `i128`.
pub open spec fn liquidity_after_crossings(m: Map<i32, TickInfo>, liquidity: i128, cs: Seq<Crossing>, zero_for_one: bool) -> i128
    decreases cs.len(),
{
    if cs.len() == 0 {
        liquidity
    } else {
        let net = tick_of(m, cs[0].tick).liquidity_net;
        let next = if zero_for_one { clip_i128(liquidity - net) } else { clip_i128(liquidity + net) };
        liquidity_after_crossings(m, next, cs.drop_first(), zero_for_one)
    }
}

/// A run ends with the liquidity it started with, moved by the net liquidity of
/// each tick it crossed, in order.
proof fn lemma_run_liquidity(m: Map<i32, TickInfo>, s: StepState, p: SwapParams, fuel: nat)
    ensures
        swap_run(m, s, p, fuel) matches Ok((s2, cs)) ==> s2.liquidity == liquidity_after_crossings(m, s.liquidity, cs,
            p.zero_for_one),
    decreases fuel,
{
    if fuel > 0 {
        lemma_crossing_applies_liquidity_net(m, s, p);
        match swap_iteration(m, s, p) {
            StepOutcome::Continue(s2, c) => {
                lemma_run_liquidity(m, s2, p, (fuel - 1) as nat);
                match swap_run(m, s2, p, (fuel - 1) as nat) {
                    Ok((s3, cs)) => {
                        match c {
                            Some(x) => {
                                let all = crate::swap::engine::crossing_seq(c) + cs;
                                assert(all[0] == x);
                                assert(all.drop_first() =~= cs);
                            },
                            None => {
                                assert(crate::swap::engine::crossing_seq(c) + cs =~= cs);
                            },
                        }
                    },
                    Err(e) => {},
                }
            },
            _ => {},
        }
    }
}

/// After a swap the pool's active liquidity is the liquidity it had before,
/// moved by the net liquidity of every tick the swap crossed: added for each
/// tick crossed upwards (token1 in), subtracted for each tick crossed downwards
/// (token0 in). This holds of every executed swap; a quote that ends in dust
/// output reports the state unchanged.
pub proof fn lemma_swap_liquidity_follows_crossings(m: Map<i32, TickInfo>, st: SwapState, amount: i128, p: SwapParams)
    ensures
        swap_outcome(m, st, amount, p) matches Ok((st2, ain, aout, cf, cs)) ==> (p.allow_panic || aout != 0)
            ==> st2.liquidity == liquidity_after_crossings(m, st.liquidity, cs, p.zero_for_one),
        swap_outcome(m, st, amount, p) matches Ok((st2, ain, aout, cf, cs)) ==> st2.tick_spacing == st.tick_spacing,
{
    lemma_run_liquidity(m, initial_step_state(st, amount), p, MAX_SWAP_ITERATIONS as nat);
}

/// The slippage of a quote is above the ceiling only when the output falls short
/// of the input by more than `MAX_SLIPPAGE_BPS` basis points of the input.
proof fn lemma_slippage_above_ceiling(amount_in: i128, amount_in_used: i128, amount_out: i128)
    requires
        amount_in > 0,
        amount_out >= MIN_OUTPUT_AMOUNT,
    ensures
        slippage_bps(amount_in, amount_in_used, amount_out) > MAX_SLIPPAGE_BPS ==> amount_out < amount_in
            && (amount_in - amount_out) * 10000 > MAX_SLIPPAGE_BPS * amount_in,
        (amount_in - amount_out) * 10000 <= MAX_SLIPPAGE_BPS * amount_in ==> slippage_bps(amount_in, amount_in_used,
            amount_out) <= MAX_SLIPPAGE_BPS,
{
    if amount_in_used > 0 {
        let d = clip_i128(amount_in - amount_out);
        assert(d == amount_in - amount_out);
        let num: int = clip_i128(d * 10000) as int;
        let dd: int = d as int;
        let a: int = amount_in as int;
        if dd <= 0 {
            assert(num <= 0);
            assert(-((-num) / a) <= 0) by (nonlinear_arith)
                requires num <= 0, a > 0;
        } else {
            assert(0 < num <= dd * 10000);
            if num / a > 5000 {
                assert(num >= 5001 * a) by (nonlinear_arith)
                    requires num / a > 5000, a > 0;
            }
            if dd * 10000 <= 5000 * a {
                assert(num / a <= 5000) by (nonlinear_arith)
                    requires num <= 5000 * a, a > 0, num > 0;
            }
        }
    }
}

/// A preview rejects a quote for slippage only when its output falls short of
/// the input by more than `MAX_SLIPPAGE_BPS` basis points of the input. A quote
/// whose output meets the caller's minimum and the dust minimum and loses at
/// most that much (in particular, one whose output is at least its input) is
/// reported valid, with the quote's input used and output and a fee paid of
/// their difference.
pub proof fn lemma_preview_rejects_slippage_only_on_loss(amount_in: i128, min_amount_out: i128, quote: (i128, i128, u128))
    requires
        amount_in > 0,
    ensures
        preview_outcome(amount_in, min_amount_out, quote) == Err::<(i128, i128, i128, u128), PreviewError>(
            PreviewError::SlippageMax) ==> quote.1 < amount_in && (amount_in - quote.1) * 10000 > MAX_SLIPPAGE_BPS
            * amount_in,
        quote.1 >= min_amount_out && quote.1 >= MIN_OUTPUT_AMOUNT && (amount_in - quote.1) * 10000 <= MAX_SLIPPAGE_BPS
            * amount_in ==> preview_outcome(amount_in, min_amount_out, quote) == Ok::<(i128, i128, i128, u128), PreviewError>(
            (quote.0, quote.1, clip_i128(quote.0 - quote.1), quote.2)),
        quote.1 >= min_amount_out && quote.1 >= MIN_OUTPUT_AMOUNT && quote.1 >= amount_in ==> preview_outcome(amount_in,
            min_amount_out, quote) == Ok::<(i128, i128, i128, u128), PreviewError>(
            (quote.0, quote.1, clip_i128(quote.0 - quote.1), quote.2)),
{
    if quote.1 >= MIN_OUTPUT_AMOUNT {
        lemma_slippage_above_ceiling(amount_in, quote.0, quote.1);
    }
    if quote.1 >= amount_in {
        assert((amount_in - quote.1) * 10000 <= MAX_SLIPPAGE_BPS * amount_in);
    }
}

/// How a step may move a run's totals: the input left never grows, the output
/// and the creator fee collected never shrink, and the fee growth of the output
/// token stays as it was (fees are charged in the input token).
pub open spec fn step_keeps_totals(s: StepState, s2: StepState, zero_for_one: bool) -> bool {
    &&& s2.amount_remaining <= s.amount_remaining
    &&& s2.amount_out_total >= s.amount_out_total
    &&& s2.total_creator_fee >= s.total_creator_fee
    &&& zero_for_one ==> s2.fee_growth_global_1 == s.fee_growth_global_1
    &&& !zero_for_one ==> s2.fee_growth_global_0 == s.fee_growth_global_0
}

/// Every step of a swap keeps the run's totals in order (`step_keeps_totals`),
/// and a tick it crosses is recorded with the global fee growth the step ends
/// with, which is what the crossing flips the tick's fee growth outside against.
pub proof fn lemma_step_keeps_totals(m: Map<i32, TickInfo>, s: StepState, p: SwapParams)
    ensures
        swap_iteration(m, s, p) matches StepOutcome::Continue(s2, c) ==> step_keeps_totals(s, s2, p.zero_for_one),
        swap_iteration(m, s, p) matches StepOutcome::Stop(s2) ==> step_keeps_totals(s, s2, p.zero_for_one),
        swap_iteration(m, s, p) matches StepOutcome::Continue(s2, Some(c)) ==> c.fee_growth_global_0
            == s2.fee_growth_global_0 && c.fee_growth_global_1 == s2.fee_growth_global_1,
{
}

} // verus!
