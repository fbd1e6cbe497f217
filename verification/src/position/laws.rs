//! Properties of position fee accounting that span several calls.
use vstd::prelude::*;
use crate::math::q64::clip_i128;
use crate::position::fees::pending_fee;
use crate::position::manager::position_after_update;
use crate::position::types::Position;

verus! {

/// Right after a position is updated to the current fee growth nothing more is
/// pending: updating it again at the same growth credits nothing.
pub proof fn lemma_update_settles_pending(pos: Position, inside_0: u128, inside_1: u128)
    ensures
        ({
            let p = position_after_update(pos, inside_0, inside_1);
            &&& pending_fee(p.liquidity, inside_0, p.fee_growth_inside_last_0) == 0
            &&& pending_fee(p.liquidity, inside_1, p.fee_growth_inside_last_1) == 0
            &&& position_after_update(p, inside_0, inside_1) == p
        }),
{
    let p = position_after_update(pos, inside_0, inside_1);
    assert(p.liquidity as int * 0 == 0);
}

/// An update credits exactly the pending fees (where the owed amounts do not
/// saturate) and keeps the liquidity.
pub proof fn lemma_update_credits_pending(pos: Position, inside_0: u128, inside_1: u128)
    requires
        pos.tokens_owed_0 + pending_fee(pos.liquidity, inside_0, pos.fee_growth_inside_last_0) <= u128::MAX,
        pos.tokens_owed_1 + pending_fee(pos.liquidity, inside_1, pos.fee_growth_inside_last_1) <= u128::MAX,
    ensures
        ({
            let p = position_after_update(pos, inside_0, inside_1);
            &&& p.tokens_owed_0 == pos.tokens_owed_0 + pending_fee(pos.liquidity, inside_0, pos.fee_growth_inside_last_0)
            &&& p.tokens_owed_1 == pos.tokens_owed_1 + pending_fee(pos.liquidity, inside_1, pos.fee_growth_inside_last_1)
            &&& p.liquidity == pos.liquidity
        }),
{
}

/// Modifying a position by `delta` and then by `-delta` at the same fee growth
/// restores its liquidity (where it does not saturate); the second modification
/// credits no fees.
pub proof fn lemma_modify_then_revert(pos: Position, delta: i128, inside_0: u128, inside_1: u128)
    requires
        delta != i128::MIN,
        i128::MIN <= pos.liquidity + delta <= i128::MAX,
    ensures
        ({
            let p1 = Position { liquidity: clip_i128(pos.liquidity + delta), ..position_after_update(pos, inside_0, inside_1) };
            let p2 = Position { liquidity: clip_i128(p1.liquidity - delta), ..position_after_update(p1, inside_0, inside_1) };
            &&& p2.liquidity == pos.liquidity
            &&& p2.tokens_owed_0 == p1.tokens_owed_0
            &&& p2.tokens_owed_1 == p1.tokens_owed_1
        }),
{
    let p1 = Position { liquidity: clip_i128(pos.liquidity + delta), ..position_after_update(pos, inside_0, inside_1) };
    assert(p1.liquidity as int * 0 == 0);
}

} // verus!
