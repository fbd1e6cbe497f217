//! Properties of tick updates and crossings that span several calls.
use vstd::prelude::*;
use crate::tick::types::TickInfo;
use crate::tick::update::{tick_after_cross, tick_after_update};

verus! {

/// Crossing a tick twice at the same global fee growth restores its fee growth
/// outside: the two crossings cancel.
pub proof fn lemma_cross_twice_restores(info: TickInfo, global_0: u128, global_1: u128)
    ensures
        tick_after_cross(tick_after_cross(info, global_0, global_1), global_0, global_1) == info,
{
}

/// Adding liquidity to a tick and then removing the same amount restores its
/// gross and net liquidity (where neither saturates).
pub proof fn lemma_update_then_revert_restores_liquidity(
    info: TickInfo,
    tick: i32,
    current_tick: i32,
    delta: i128,
    global_0: u128,
    global_1: u128,
    upper: bool,
)
    requires
        delta > 0,
        info.liquidity_gross + delta <= i128::MAX,
        upper ==> info.liquidity_net - delta >= i128::MIN,
        !upper ==> info.liquidity_net + delta <= i128::MAX,
    ensures
        ({
            let added = tick_after_update(info, tick, current_tick, delta, global_0, global_1, upper);
            let removed = tick_after_update(added, tick, current_tick, (-delta) as i128, global_0, global_1, upper);
            &&& removed.liquidity_gross == info.liquidity_gross
            &&& removed.liquidity_net == info.liquidity_net
        }),
{
}

/// A tick left without gross liquidity is not initialized.
pub proof fn lemma_unreferenced_tick_uninitialized(
    info: TickInfo,
    tick: i32,
    current_tick: i32,
    delta: i128,
    global_0: u128,
    global_1: u128,
    upper: bool,
)
    ensures
        tick_after_update(info, tick, current_tick, delta, global_0, global_1, upper).liquidity_gross == 0
            ==> !tick_after_update(info, tick, current_tick, delta, global_0, global_1, upper).initialized,
{
}

} // verus!
