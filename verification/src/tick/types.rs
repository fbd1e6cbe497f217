use vstd::prelude::*;
use std::collections::HashMap;

verus! {

broadcast use vstd::std_specs::hash::group_hash_axioms;

/// Information stored for each initialized tick.
#[derive(Clone, Copy, Debug)]
pub struct TickInfo {
    /// Total liquidity referencing this tick.
    pub liquidity_gross: i128,
    /// Net liquidity change when the price crosses this tick upwards.
    pub liquidity_net: i128,
    /// Fee growth on the other side of this tick, token0.
    pub fee_growth_outside_0: u128,
    /// Fee growth on the other side of this tick, token1.
    pub fee_growth_outside_1: u128,
    /// Whether this tick is initialized.
    pub initialized: bool,
}

/// The state of a tick nothing references.
pub open spec fn empty_tick() -> TickInfo {
    TickInfo {
        liquidity_gross: 0,
        liquidity_net: 0,
        fee_growth_outside_0: 0,
        fee_growth_outside_1: 0,
        initialized: false,
    }
}

impl Default for TickInfo {
    fn default() -> (r: Self)
        ensures
            r == empty_tick(),
    {
        Self {
            liquidity_gross: 0,
            liquidity_net: 0,
            fee_growth_outside_0: 0,
            fee_growth_outside_1: 0,
            initialized: false,
        }
    }
}

/// The ticks of a pool, keyed by tick index. A tick that was never written
/// reads as the empty tick.
pub struct TickTable {
    ticks: HashMap<i32, TickInfo>,
}

impl View for TickTable {
    type V = Map<i32, TickInfo>;

    closed spec fn view(&self) -> Map<i32, TickInfo> {
        self.ticks@
    }
}

/// The information of `tick` in a tick map, the empty tick when absent.
pub open spec fn tick_of(ticks: Map<i32, TickInfo>, tick: i32) -> TickInfo {
    if ticks.contains_key(tick) { ticks[tick] } else { empty_tick() }
}

impl TickTable {
    /// A table in which every tick is empty.
    pub fn new() -> (r: Self)
        ensures
            r@ == Map::<i32, TickInfo>::empty(),
    {
        TickTable { ticks: HashMap::new() }
    }

    /// Reads a tick.
    pub fn read(&self, tick: i32) -> (r: TickInfo)
        ensures
            r == tick_of(self@, tick),
    {
        match self.ticks.get(&tick) {
            Some(info) => *info,
            None => TickInfo::default(),
        }
    }

    /// Every tick written so far with its information, in no particular order.
    pub fn entries(&self) -> (r: Vec<(i32, TickInfo)>)
        ensures
            r@.len() == self@.dom().len(),
            forall|i: int| 0 <= i < r@.len() ==> #[trigger] self@.contains_key(r@[i].0) && self@[r@[i].0] == r@[i].1,
            forall|k: i32| #[trigger] self@.contains_key(k) ==> exists|i: int| 0 <= i < r@.len() && r@[i].0 == k,
    {
        let mut out: Vec<(i32, TickInfo)> = Vec::new();
        for entry in it: self.ticks.iter()
            invariant
                out@.len() == it.index(),
                it.seq().len() == self@.dom().len(),
                forall|i: int| 0 <= i < it.seq().len() ==> #[trigger] self@.contains_key(*it.seq()[i].0)
                    && self@[*it.seq()[i].0] == *it.seq()[i].1,
                forall|i: int| 0 <= i < out@.len() ==> out@[i].0 == *it.seq()[i].0 && out@[i].1 == *it.seq()[i].1,
                forall|k: i32| #[trigger] self@.contains_key(k) ==> it.seq().contains((&k, &self@[k])),
            ensures
                forall|k: i32| #[trigger] self@.contains_key(k) ==> exists|i: int| 0 <= i < out@.len() && out@[i].0 == k,
        {
            let (k, v) = entry;
            out.push((*k, *v));
        }
        out
    }

    /// Writes a tick.
    pub fn write(&mut self, tick: i32, info: TickInfo)
        ensures
            final(self)@ == old(self)@.insert(tick, info),
    {
        self.ticks.insert(tick, info);
    }
}

} // verus!
