use vstd::prelude::*;
use soroban_sdk::Env;
use crate::math::constants::{MAX_TICK, MAX_TICK_SEARCH_STEPS, MIN_TICK};
use crate::math::q64::{clip_i128, sat_add_i128, sat_sub_i128, sat_add_i32, wrap_sub_u128};
use crate::math::sqrt_price::tick_in_range;
use crate::math::{snap_tick_to_spacing, snapped_tick};
use crate::tick::types::{tick_of, TickInfo, TickTable};

verus! {

/// A tick after its liquidity changes by `delta`. The gross liquidity changes by
/// `delta` (saturating); a tick that gains its first liquidity starts counting
/// fee growth outside from the global growth if the current tick is at or above it
/// and from zero otherwise; the net liquidity of an upper boundary decreases by
/// `delta`, that of a lower boundary increases; a tick left without gross
/// liquidity is no longer initialized.
pub open spec fn tick_after_update(info: TickInfo, tick: i32, current_tick: i32, delta: i128, global_0: u128, global_1: u128, upper: bool) -> TickInfo {
    let before = info.liquidity_gross;
    let after = clip_i128(before + delta);
    let starts = before == 0 && after > 0;
    TickInfo {
        liquidity_gross: after,
        liquidity_net: if upper { clip_i128(info.liquidity_net - delta) } else { clip_i128(info.liquidity_net + delta) },
        fee_growth_outside_0: if starts { if current_tick >= tick { global_0 } else { 0 } } else { info.fee_growth_outside_0 },
        fee_growth_outside_1: if starts { if current_tick >= tick { global_1 } else { 0 } } else { info.fee_growth_outside_1 },
        initialized: if after == 0 { false } else if starts { true } else { info.initialized },
    }
}

/// Updates a tick when liquidity referencing it is added (`delta > 0`) or removed.
/// Returns whether the tick flipped between referenced and unreferenced.
pub fn update_tick(
    env: &Env,
    ticks: &mut TickTable,
    tick: i32,
    current_tick: i32,
    liquidity_delta: i128,
    fee_growth_global_0: u128,
    fee_growth_global_1: u128,
    upper: bool,
) -> (flipped: bool)
    requires
        liquidity_delta != i128::MIN,
    ensures
        final(ticks)@ == old(ticks)@.insert(tick, tick_after_update(tick_of(old(ticks)@, tick), tick, current_tick,
            liquidity_delta, fee_growth_global_0, fee_growth_global_1, upper)),
        flipped == ((tick_of(old(ticks)@, tick).liquidity_gross == 0) != (clip_i128(tick_of(old(ticks)@, tick).liquidity_gross
            + liquidity_delta) == 0)),
{
    let mut info = ticks.read(tick);
    let liquidity_gross_before = info.liquidity_gross;
    let liquidity_gross_after = if liquidity_delta > 0 {
        sat_add_i128(liquidity_gross_before, liquidity_delta)
    } else {
        sat_sub_i128(liquidity_gross_before, -liquidity_delta)
    };
    let flipped = (liquidity_gross_after == 0) != (liquidity_gross_before == 0);
    if liquidity_gross_before == 0 && liquidity_gross_after > 0 {
        if current_tick >= tick {
            info.fee_growth_outside_0 = fee_growth_global_0;
            info.fee_growth_outside_1 = fee_growth_global_1;
        } else {
            info.fee_growth_outside_0 = 0;
            info.fee_growth_outside_1 = 0;
        }
        info.initialized = true;
    }
    info.liquidity_gross = liquidity_gross_after;
    if upper {
        info.liquidity_net = sat_sub_i128(info.liquidity_net, liquidity_delta);
    } else {
        info.liquidity_net = sat_add_i128(info.liquidity_net, liquidity_delta);
    }
    if liquidity_gross_after == 0 {
        info.initialized = false;
    }
    ticks.write(tick, info);
    flipped
}

/// A tick after the price crosses it: the fee growth outside flips to the
/// global growth minus its previous value, modulo `2^128`.
pub open spec fn tick_after_cross(info: TickInfo, global_0: u128, global_1: u128) -> TickInfo {
    TickInfo {
        fee_growth_outside_0: wrap_sub_u128(global_0, info.fee_growth_outside_0),
        fee_growth_outside_1: wrap_sub_u128(global_1, info.fee_growth_outside_1),
        ..info
    }
}

/// Crosses a tick during a swap and returns its net liquidity.
pub fn cross_tick(
    env: &Env,
    ticks: &mut TickTable,
    tick: i32,
    fee_growth_global_0: u128,
    fee_growth_global_1: u128,
) -> (r: i128)
    ensures
        final(ticks)@ == old(ticks)@.insert(tick, tick_after_cross(tick_of(old(ticks)@, tick), fee_growth_global_0,
            fee_growth_global_1)),
        r == tick_of(old(ticks)@, tick).liquidity_net,
{
    let mut info = ticks.read(tick);
    info.fee_growth_outside_0 = fee_growth_global_0.wrapping_sub(info.fee_growth_outside_0);
    info.fee_growth_outside_1 = fee_growth_global_1.wrapping_sub(info.fee_growth_outside_1);
    ticks.write(tick, info);
    info.liquidity_net
}

/// Whether a tick carries liquidity a swap must account for.
pub open spec fn tick_active(info: TickInfo) -> bool {
    info.initialized && info.liquidity_gross > 0
}

/// `a + b` clamped to the bounds of `i32`.
pub open spec fn sat_add_i32_spec(a: i32, b: i32) -> i32 {
    if a + b > i32::MAX { i32::MAX } else if a + b < i32::MIN { i32::MIN } else { (a + b) as i32 }
}

/// Scans up to `n` tick boundaries starting at `tick`, moving by `step`: the first
/// active tick found, or `fallback` when the scan leaves the tick range or ends.
pub open spec fn search_ticks(ticks: Map<i32, TickInfo>, tick: i32, step: i32, n: nat, fallback: i32) -> i32
    decreases n,
{
    if n == 0 {
        fallback
    } else if !tick_in_range(tick as int) {
        fallback
    } else if tick_active(tick_of(ticks, tick)) {
        tick
    } else {
        search_ticks(ticks, sat_add_i32_spec(tick, step), step, (n - 1) as nat, fallback)
    }
}

/// The next active tick from `current_tick` in the swap direction, looking at
/// most `MAX_TICK_SEARCH_STEPS` boundaries aligned to the spacing: going down
/// (`zero_for_one`) the search starts at the greatest aligned tick not above the
/// current tick, going up at the least aligned tick above it. `current_tick`
/// when none is found.
pub open spec fn next_initialized_tick(ticks: Map<i32, TickInfo>, current_tick: i32, tick_spacing: i32, zero_for_one: bool) -> i32 {
    if tick_spacing <= 0 {
        current_tick
    } else {
        let snapped = snapped_tick(current_tick as int, tick_spacing as int) as i32;
        if zero_for_one {
            search_ticks(ticks, snapped, (-tick_spacing) as i32, MAX_TICK_SEARCH_STEPS as nat, current_tick)
        } else {
            search_ticks(ticks, sat_add_i32_spec(snapped, tick_spacing), tick_spacing, MAX_TICK_SEARCH_STEPS as nat,
                current_tick)
        }
    }
}

/// Whether `tick` is a multiple of a positive spacing.
pub open spec fn on_spacing(tick: i32, tick_spacing: i32) -> bool {
    (tick as int) % (tick_spacing as int) == 0
}

/// What the search for the next tick guarantees: it gives up (`current_tick`), or
/// it finds an active aligned tick in range on the swap side (at or below the
/// current tick going down, above it going up) with no active aligned tick
/// strictly between the current tick and it.
pub open spec fn next_tick_found(ticks: Map<i32, TickInfo>, current_tick: i32, tick_spacing: i32, zero_for_one: bool, r: i32) -> bool {
    r == current_tick || {
        &&& tick_spacing > 0
        &&& tick_in_range(r as int)
        &&& tick_active(tick_of(ticks, r))
        &&& on_spacing(r, tick_spacing)
        &&& zero_for_one ==> r <= current_tick && forall|t: i32| #![trigger tick_of(ticks, t)]
            r < t < current_tick && on_spacing(t, tick_spacing) ==> !tick_active(tick_of(ticks, t))
        &&& !zero_for_one ==> r > current_tick && forall|t: i32| #![trigger tick_of(ticks, t)]
            current_tick < t < r && on_spacing(t, tick_spacing) ==> !tick_active(tick_of(ticks, t))
    }
}

/// Two distinct multiples of a positive spacing are at least one spacing apart.
proof fn lemma_aligned_gap(a: int, b: int, s: int)
    requires
        s > 0,
        a % s == 0,
        b % s == 0,
        a < b,
    ensures
        a + s <= b,
{
    vstd::arithmetic::div_mod::lemma_fundamental_div_mod(a, s);
    vstd::arithmetic::div_mod::lemma_fundamental_div_mod(b, s);
    assert(a / s < b / s) by (nonlinear_arith)
        requires a == s * (a / s), b == s * (b / s), a < b, s > 0;
    assert(s * (a / s) + s <= s * (b / s)) by (nonlinear_arith)
        requires a / s < b / s, s > 0;
}

/// A multiple of a spacing moved by one spacing is still a multiple of it.
proof fn lemma_aligned_shift(a: int, s: int, sign: int)
    requires
        s > 0,
        a % s == 0,
        sign == 1 || sign == -1,
    ensures
        (a + sign * s) % s == 0,
{
    vstd::arithmetic::div_mod::lemma_fundamental_div_mod(a, s);
    vstd::arithmetic::div_mod::lemma_mod_multiples_vanish(sign, a, s);
    assert(a + sign * s == s * sign + a) by (nonlinear_arith);
}

/// A scan from an aligned tick stops at an active aligned tick in range, having
/// passed only inactive aligned ticks, or gives up.
proof fn lemma_search_ticks_scan(ticks: Map<i32, TickInfo>, tick: i32, s: i32, up: bool, n: nat, fallback: i32)
    requires
        s > 0,
        on_spacing(tick, s),
    ensures
        ({
            let step = if up { s } else { (-s) as i32 };
            let r = search_ticks(ticks, tick, step, n, fallback);
            r == fallback || {
                &&& tick_in_range(r as int)
                &&& tick_active(tick_of(ticks, r))
                &&& on_spacing(r, s)
                &&& up ==> tick <= r && forall|t: i32| #![trigger tick_of(ticks, t)]
                    tick <= t < r && on_spacing(t, s) ==> !tick_active(tick_of(ticks, t))
                &&& !up ==> r <= tick && forall|t: i32| #![trigger tick_of(ticks, t)]
                    r < t <= tick && on_spacing(t, s) ==> !tick_active(tick_of(ticks, t))
            }
        }),
    decreases n,
{
    let step = if up { s } else { (-s) as i32 };
    if n > 0 && tick_in_range(tick as int) && !tick_active(tick_of(ticks, tick)) {
        let next = sat_add_i32_spec(tick, step);
        if tick + step <= i32::MAX && tick + step >= i32::MIN {
            lemma_aligned_shift(tick as int, s as int, if up { 1 } else { -1 });
            assert(next == tick + step);
            lemma_search_ticks_scan(ticks, next, s, up, (n - 1) as nat, fallback);
            let r = search_ticks(ticks, next, step, (n - 1) as nat, fallback);
            if r != fallback {
                if up {
                    assert forall|t: i32| #![trigger tick_of(ticks, t)]
                        tick <= t < r && on_spacing(t, s) implies !tick_active(tick_of(ticks, t)) by {
                        if t != tick {
                            lemma_aligned_gap(tick as int, t as int, s as int);
                        }
                    }
                } else {
                    assert forall|t: i32| #![trigger tick_of(ticks, t)]
                        r < t <= tick && on_spacing(t, s) implies !tick_active(tick_of(ticks, t)) by {
                        if t != tick {
                            lemma_aligned_gap(t as int, tick as int, s as int);
                        }
                    }
                }
            }
        } else {
            assert(!tick_in_range(next as int));
            if n > 1 {
                assert(search_ticks(ticks, next, step, (n - 1) as nat, fallback) == fallback);
            }
        }
    }
}

/// The search for the next tick meets [`next_tick_found`].
pub proof fn lemma_next_tick_found(ticks: Map<i32, TickInfo>, current_tick: i32, tick_spacing: i32, zero_for_one: bool)
    requires
        next_tick_search_ok(current_tick, tick_spacing),
    ensures
        next_tick_found(ticks, current_tick, tick_spacing, zero_for_one,
            next_initialized_tick(ticks, current_tick, tick_spacing, zero_for_one)),
{
    if tick_spacing > 0 {
        let s = tick_spacing;
        let snapped_i = snapped_tick(current_tick as int, s as int);
        vstd::arithmetic::div_mod::lemma_fundamental_div_mod(current_tick as int, s as int);
        vstd::arithmetic::div_mod::lemma_mod_bound(current_tick as int, s as int);
        vstd::arithmetic::div_mod::lemma_mod_multiples_basic(current_tick as int / s as int, s as int);
        assert(snapped_i == s * (current_tick as int / s as int));
        assert((s * (current_tick as int / s as int)) % (s as int) == 0) by {
            vstd::arithmetic::mul::lemma_mul_is_commutative(s as int, current_tick as int / s as int);
        }
        let snapped = snapped_i as i32;
        assert(on_spacing(snapped, s));
        assert(snapped <= current_tick < snapped + s);
        if zero_for_one {
            lemma_search_ticks_scan(ticks, snapped, s, false, MAX_TICK_SEARCH_STEPS as nat, current_tick);
            let r = next_initialized_tick(ticks, current_tick, tick_spacing, zero_for_one);
            if r != current_tick {
                assert forall|t: i32| #![trigger tick_of(ticks, t)]
                    r < t < current_tick && on_spacing(t, s) implies !tick_active(tick_of(ticks, t)) by {
                    if t > snapped {
                        lemma_aligned_gap(snapped as int, t as int, s as int);
                    }
                }
            }
        } else {
            let start = sat_add_i32_spec(snapped, s);
            if snapped + s <= i32::MAX {
                lemma_aligned_shift(snapped as int, s as int, 1);
                lemma_search_ticks_scan(ticks, start, s, true, MAX_TICK_SEARCH_STEPS as nat, current_tick);
                let r = next_initialized_tick(ticks, current_tick, tick_spacing, zero_for_one);
                if r != current_tick {
                    assert forall|t: i32| #![trigger tick_of(ticks, t)]
                        current_tick < t < r && on_spacing(t, s) implies !tick_active(tick_of(ticks, t)) by {
                        if t < start {
                            lemma_aligned_gap(snapped as int, t as int, s as int);
                        }
                    }
                }
            } else {
                assert(!tick_in_range(start as int));
            }
        }
    }
}

/// Whether the search for the next tick can start: snapping the current tick to
/// the spacing stays within `i32`.
pub open spec fn next_tick_search_ok(current_tick: i32, tick_spacing: i32) -> bool {
    tick_spacing <= 0 || snapped_tick(current_tick as int, tick_spacing as int) >= i32::MIN
}

/// Whether the search for the next tick can start, computed.
pub fn check_next_tick_search(current_tick: i32, tick_spacing: i32) -> (r: bool)
    ensures
        r == next_tick_search_ok(current_tick, tick_spacing),
{
    if tick_spacing <= 0 {
        return true;
    }
    let rem = current_tick.checked_rem_euclid(tick_spacing).unwrap();
    (current_tick as i64) - (rem as i64) >= i32::MIN as i64
}

/// Every tick the search returns is the fallback or an active tick in range.
pub proof fn lemma_search_ticks_result(ticks: Map<i32, TickInfo>, tick: i32, step: i32, n: nat, fallback: i32)
    ensures
        search_ticks(ticks, tick, step, n, fallback) == fallback || (tick_in_range(search_ticks(ticks, tick, step,
            n, fallback) as int) && tick_active(tick_of(ticks, search_ticks(ticks, tick, step, n, fallback)))),
    decreases n,
{
    if n > 0 && tick_in_range(tick as int) && !tick_active(tick_of(ticks, tick)) {
        lemma_search_ticks_result(ticks, sat_add_i32_spec(tick, step), step, (n - 1) as nat, fallback);
    }
}

/// Finds the next initialized tick in the swap direction.
pub fn find_next_initialized_tick(
    env: &Env,
    ticks: &TickTable,
    current_tick: i32,
    tick_spacing: i32,
    zero_for_one: bool,
) -> (r: i32)
    requires
        next_tick_search_ok(current_tick, tick_spacing),
    ensures
        r == next_initialized_tick(ticks@, current_tick, tick_spacing, zero_for_one),
        r == current_tick || (tick_in_range(r as int) && tick_active(tick_of(ticks@, r))),
        next_tick_found(ticks@, current_tick, tick_spacing, zero_for_one, r),
{
    proof {
        lemma_next_tick_found(ticks@, current_tick, tick_spacing, zero_for_one);
    }
    if tick_spacing <= 0 {
        return current_tick;
    }
    let step = if zero_for_one { -tick_spacing } else { tick_spacing };
    let mut tick = snap_tick_to_spacing(current_tick, tick_spacing);
    if !zero_for_one {
        tick = sat_add_i32(tick, step);
    }
    let ghost start = tick;
    proof {
        lemma_search_ticks_result(ticks@, start, step, MAX_TICK_SEARCH_STEPS as nat, current_tick);
    }
    let mut k: u32 = 0;
    while k < MAX_TICK_SEARCH_STEPS
        invariant
            k <= MAX_TICK_SEARCH_STEPS,
            search_ticks(ticks@, tick, step, (MAX_TICK_SEARCH_STEPS - k) as nat, current_tick)
                == next_initialized_tick(ticks@, current_tick, tick_spacing, zero_for_one),
            step == (if zero_for_one { -tick_spacing } else { tick_spacing as int }),
            tick_spacing > 0,
            next_tick_found(ticks@, current_tick, tick_spacing, zero_for_one,
                next_initialized_tick(ticks@, current_tick, tick_spacing, zero_for_one)),
        decreases MAX_TICK_SEARCH_STEPS - k,
    {
        if !(MIN_TICK <= tick && tick <= MAX_TICK) {
            return current_tick;
        }
        let info = ticks.read(tick);
        if info.initialized && info.liquidity_gross > 0 {
            return tick;
        }
        tick = sat_add_i32(tick, step);
        k = k + 1;
    }
    current_tick
}

/// Checks that a tick lies within `[MIN_TICK, MAX_TICK]`.
pub fn is_valid_tick(tick: i32) -> (r: bool)
    ensures
        r == tick_in_range(tick as int),
{
    tick >= MIN_TICK && tick <= MAX_TICK
}

/// Checks that a tick is a multiple of a positive tick spacing.
pub fn is_aligned_tick(tick: i32, tick_spacing: i32) -> (r: bool)
    ensures
        r == (tick_spacing > 0 && (tick as int) % (tick_spacing as int) == 0),
{
    if tick_spacing <= 0 {
        return false;
    }
    proof {
        crate::math::lemmas::lemma_neg_mod_zero(tick as int, tick_spacing as int);
        vstd::arithmetic::div_mod::lemma_small_mod(0, tick_spacing as nat);
        assert(tick < 0 ==> (tick as int * -1) == -(tick as int));
    }
    tick.checked_rem(tick_spacing).unwrap() == 0
}

/// Rounds a tick down to a multiple of a positive tick spacing.
pub fn align_tick(tick: i32, tick_spacing: i32) -> (r: i32)
    requires
        tick_spacing > 0,
        snapped_tick(tick as int, tick_spacing as int) >= i32::MIN,
    ensures
        r == snapped_tick(tick as int, tick_spacing as int),
{
    snap_tick_to_spacing(tick, tick_spacing)
}

} // verus!
