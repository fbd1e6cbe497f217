use vstd::prelude::*;
use std::collections::HashMap;

verus! {

broadcast use vstd::std_specs::hash::group_hash_axioms;

/// A fee tier: the trading fee in basis points, the tick spacing of its pools,
/// and whether new pools may use it.
#[derive(Clone, Copy, Debug, PartialEq, Eq, Structural)]
pub struct FeeTier {
    pub fee_bps: u32,
    pub tick_spacing: i32,
    pub enabled: bool,
}

/// The fee tiers the factory knows, keyed by fee.
pub struct FeeTierTable {
    tiers: HashMap<u32, FeeTier>,
}

impl View for FeeTierTable {
    type V = Map<u32, FeeTier>;

    closed spec fn view(&self) -> Map<u32, FeeTier> {
        self.tiers@
    }
}

impl FeeTierTable {
    /// A table without tiers.
    pub fn new() -> (r: Self)
        ensures
            r@ == Map::<u32, FeeTier>::empty(),
    {
        FeeTierTable { tiers: HashMap::new() }
    }

    /// The tier of a fee, if there is one.
    pub fn read(&self, fee_bps: u32) -> (r: Option<FeeTier>)
        ensures
            r == (if self@.contains_key(fee_bps) { Some(self@[fee_bps]) } else { None::<FeeTier> }),
    {
        match self.tiers.get(&fee_bps) {
            Some(tier) => Some(*tier),
            None => None,
        }
    }

    /// Records the tier of a fee.
    pub fn write(&mut self, fee_bps: u32, tier: FeeTier)
        ensures
            final(self)@ == old(self)@.insert(fee_bps, tier),
    {
        self.tiers.insert(fee_bps, tier);
    }
}

/// What a creator asks for when creating a pool (the token pair aside).
#[derive(Clone, Copy, Debug)]
pub struct CreatePoolParams {
    pub fee_bps: u32,
    pub creator_fee_bps: u32,
    pub initial_sqrt_price_x64: u128,
    pub amount0_desired: i128,
    pub amount1_desired: i128,
    pub lower_tick: i32,
    pub upper_tick: i32,
    /// Lock duration in ledgers; zero locks permanently.
    pub lock_duration: u32,
}

/// What the factory does to create a pool once the request is accepted: the
/// deposit in sorted token order, the tier's spacing, the pool's starting tick
/// and whether the creator's lock is permanent.
#[derive(Clone, Copy, Debug, PartialEq, Eq, Structural)]
pub struct PoolPlan {
    pub amount0: i128,
    pub amount1: i128,
    pub tick_spacing: i32,
    pub current_tick: i32,
    pub is_permanent: bool,
}

/// The creator's locked initial position in a pool (the pool and creator are the
/// key under which it is kept).
#[derive(Clone, Copy, Debug, PartialEq, Eq, Structural)]
pub struct CreatorLock {
    pub liquidity: i128,
    pub lower_tick: i32,
    pub upper_tick: i32,
    pub lock_start: u32,
    /// `u32::MAX` for a permanent lock.
    pub lock_end: u32,
    pub is_permanent: bool,
    pub is_unlocked: bool,
    /// Set for good once the creator unlocks.
    pub fee_revoked: bool,
}

} // verus!
