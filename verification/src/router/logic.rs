use vstd::prelude::*;
use crate::math::q64::{clip_i128, sat_add_i128};
use crate::router::error::RouterError;
use crate::swap::types::PreviewResult;

verus! {

/// Most hops a multi-hop path may have.
pub const MAX_HOPS: u32 = 4u32;

/// Smallest output accepted from a split or an intermediate hop.
pub const MIN_OUTPUT: i128 = 1i128;

/// The router contract.
pub struct BelugaRouter;

/// A quote from one pool: its fee tier, the expected output and the price
/// impact in basis points (the pool itself is kept by the caller, at the same
/// index).
#[derive(Clone, Copy, Debug, PartialEq, Eq, Structural)]
pub struct PoolQuote {
    pub fee_bps: u32,
    pub amount_out: i128,
    pub price_impact_bps: i128,
}

/// How one hop of a multi-hop swap is carried out: the input it swaps, the
/// minimum output it asks, whether the input is pulled from the sender (first
/// hop) or taken from the router's balance, and whether the output goes to the
/// final recipient (last hop) or stays with the router.
#[derive(Clone, Copy, Debug, PartialEq, Eq, Structural)]
pub struct HopPlan {
    pub amount_in: i128,
    pub min_out: i128,
    pub pull_from_sender: bool,
    pub to_recipient: bool,
}

/// What the router learned about one fee tier: whether a pool exists for it and,
/// if so, what its preview offered (`(amount_out, price_impact_bps)`, `None` when
/// the preview was not valid).
#[derive(Clone, Copy, Debug)]
pub struct TierLookup {
    pub pool_found: bool,
    pub preview: Option<(i128, i128)>,
}

/// The quote of one tier, or why there is none.
pub open spec fn single_quote_outcome(fee_bps: u32, lookup: TierLookup) -> Result<PoolQuote, RouterError> {
    if !lookup.pool_found {
        Err(RouterError::PoolNotFound)
    } else {
        match lookup.preview {
            Some((out, impact)) => Ok(PoolQuote { fee_bps, amount_out: out, price_impact_bps: impact }),
            None => Err(RouterError::QuoteFailed),
        }
    }
}

/// The quotes of the first `n` tiers that have one, in tier order, each with the
/// index of its tier.
pub open spec fn quotes_of(fee_tiers: Seq<u32>, lookups: Seq<TierLookup>, n: nat) -> Seq<(usize, PoolQuote)>
    decreases n,
{
    if n == 0 {
        Seq::empty()
    } else {
        let before = quotes_of(fee_tiers, lookups, (n - 1) as nat);
        match single_quote_outcome(fee_tiers[n - 1], lookups[n - 1]) {
            Ok(q) => before.push(((n - 1) as usize, q)),
            Err(_) => before,
        }
    }
}

/// The fee tiers tried when the caller names none: 5, 30 and 100 bps.
pub open spec fn default_tiers_seq() -> Seq<u32> {
    seq![5u32, 30u32, 100u32]
}

/// Whether `best` is the index the router picks among `quotes`: the first
/// quote with the largest positive output, or the first quote when no output
/// is positive.
pub open spec fn is_best_quote_index(quotes: Seq<PoolQuote>, best: int) -> bool {
    &&& 0 <= best < quotes.len()
    &&& if quotes[best].amount_out > 0 {
        &&& forall|j: int| 0 <= j < quotes.len() ==> #[trigger] quotes[j].amount_out <= quotes[best].amount_out
        &&& forall|j: int| 0 <= j < best ==> #[trigger] quotes[j].amount_out < quotes[best].amount_out
    } else {
        &&& best == 0
        &&& forall|j: int| 0 <= j < quotes.len() ==> #[trigger] quotes[j].amount_out <= 0
    }
}

/// The sum of the positive amounts among the first `n`, saturating at `i128::MAX`.
pub open spec fn positive_total(amounts: Seq<i128>, n: nat) -> i128
    decreases n,
{
    if n == 0 {
        0
    } else {
        let t = positive_total(amounts, (n - 1) as nat);
        if amounts[n - 1] > 0 { clip_i128(t + amounts[n - 1]) } else { t }
    }
}

/// How many of the first `n` amounts are positive.
pub open spec fn positive_count(amounts: Seq<i128>, n: nat) -> nat
    decreases n,
{
    if n == 0 {
        0
    } else {
        positive_count(amounts, (n - 1) as nat) + (if amounts[n - 1] > 0 { 1nat } else { 0nat })
    }
}

/// The positions of the positive amounts among the first `n`, in order.
pub open spec fn positive_indices(amounts: Seq<i128>, n: nat) -> Seq<usize>
    decreases n,
{
    if n == 0 {
        Seq::empty()
    } else {
        let s = positive_indices(amounts, (n - 1) as nat);
        if amounts[n - 1] > 0 { s.push((n - 1) as usize) } else { s }
    }
}

/// There are as many positions of positive amounts as positive amounts.
proof fn lemma_positive_indices_len(amounts: Seq<i128>, n: nat)
    ensures
        positive_indices(amounts, n).len() == positive_count(amounts, n),
        positive_count(amounts, n) <= n,
    decreases n,
{
    if n > 0 {
        lemma_positive_indices_len(amounts, (n - 1) as nat);
    }
}

/// The sum of the first `n` amounts, saturating at the bounds of `i128`.
pub open spec fn saturating_total(amounts: Seq<i128>, n: nat) -> i128
    decreases n,
{
    if n == 0 { 0 } else { clip_i128(saturating_total(amounts, (n - 1) as nat) + amounts[n - 1]) }
}

/// What checking a split swap yields: the number of splits that will run (those
/// with a positive input), or the first rule the request breaks. The positive
/// split inputs must add up to the total input.
pub open spec fn split_outcome(initialized: bool, current_ledger: u32, deadline: u32, amount_in: i128, split_amounts: Seq<i128>) -> Result<u32, RouterError> {
    if !initialized {
        Err(RouterError::NotInitialized)
    } else if current_ledger > deadline {
        Err(RouterError::DeadlineExpired)
    } else if split_amounts.len() == 0 {
        Err(RouterError::EmptySplits)
    } else if positive_total(split_amounts, split_amounts.len()) != amount_in {
        Err(RouterError::SplitAmountMismatch)
    } else if positive_count(split_amounts, split_amounts.len()) == 0 {
        Err(RouterError::EmptySplits)
    } else {
        Ok(positive_count(split_amounts, split_amounts.len()) as u32)
    }
}

/// The minimum output asked of hop `index` of a path of `path_len` hops: the
/// caller's minimum for the last hop, dust protection for the others.
pub open spec fn hop_min_out_spec(index: usize, path_len: usize, amount_out_min: i128) -> i128 {
    if index + 1 == path_len { amount_out_min } else { MIN_OUTPUT }
}

impl BelugaRouter {
    /// Initializes the router once.
    pub fn initialize(already_initialized: bool) -> (r: Result<(), RouterError>)
        ensures
            r == (if already_initialized { Err::<(), RouterError>(RouterError::AlreadyInitialized) } else { Ok(()) }),
    {
        if already_initialized { Err(RouterError::AlreadyInitialized) } else { Ok(()) }
    }

    /// Refuses calls on a router that was never initialized.
    pub fn require_initialized(initialized: bool) -> (r: Result<(), RouterError>)
        ensures
            r == (if initialized { Ok::<(), RouterError>(()) } else { Err(RouterError::NotInitialized) }),
    {
        if initialized { Ok(()) } else { Err(RouterError::NotInitialized) }
    }

    /// The fee tiers tried when the caller names none.
    pub fn default_fee_tiers() -> (r: Vec<u32>)
        ensures
            r@ == default_tiers_seq(),
    {
        let mut v: Vec<u32> = Vec::new();
        v.push(5);
        v.push(30);
        v.push(100);
        assert(v@ =~= default_tiers_seq());
        v
    }

    /// The fee tiers to try: the caller's, or the defaults when none are named.
    pub fn select_fee_tiers(requested: Vec<u32>) -> (r: Vec<u32>)
        ensures
            r@ == (if requested@.len() == 0 { default_tiers_seq() } else { requested@ }),
    {
        if requested.len() == 0 { Self::default_fee_tiers() } else { requested }
    }

    /// Checks a single swap request: an initialized router, a deadline not yet
    /// passed and a positive input.
    pub fn validate_exact_input(initialized: bool, current_ledger: u32, deadline: u32, amount_in: i128) -> (r: Result<(), RouterError>)
        ensures
            r == (if !initialized {
                Err::<(), RouterError>(RouterError::NotInitialized)
            } else if current_ledger > deadline {
                Err(RouterError::DeadlineExpired)
            } else if amount_in <= 0 {
                Err(RouterError::InvalidAmount)
            } else {
                Ok(())
            }),
    {
        if !initialized {
            return Err(RouterError::NotInitialized);
        }
        if current_ledger > deadline {
            return Err(RouterError::DeadlineExpired);
        }
        if amount_in <= 0 {
            return Err(RouterError::InvalidAmount);
        }
        Ok(())
    }

    /// What a pool's preview offers: `(amount_out, price_impact_bps)` when the
    /// preview is valid.
    pub fn quote_from_preview(preview: &PreviewResult) -> (r: Option<(i128, i128)>)
        ensures
            r == (if preview.is_valid {
                Some((preview.amount_out_expected, preview.price_impact_bps))
            } else {
                None::<(i128, i128)>
            }),
    {
        if preview.is_valid { Some((preview.amount_out_expected, preview.price_impact_bps)) } else { None }
    }

    /// The quote of one fee tier: refused when no pool exists for it or when the
    /// pool's preview is not valid.
    pub fn get_single_quote(fee_bps: u32, pool_found: bool, preview: Option<(i128, i128)>) -> (r: Result<PoolQuote, RouterError>)
        ensures
            !pool_found ==> r == Err::<PoolQuote, RouterError>(RouterError::PoolNotFound),
            pool_found && preview is None ==> r == Err::<PoolQuote, RouterError>(RouterError::QuoteFailed),
            pool_found && preview is Some ==> r == Ok::<PoolQuote, RouterError>(
                PoolQuote { fee_bps, amount_out: preview->Some_0.0, price_impact_bps: preview->Some_0.1 }),
    {
        if !pool_found {
            return Err(RouterError::PoolNotFound);
        }
        match preview {
            Some((amount_out, price_impact_bps)) => Ok(PoolQuote { fee_bps, amount_out, price_impact_bps }),
            None => Err(RouterError::QuoteFailed),
        }
    }

    /// Picks the best of the quotes gathered: the index of the first quote with
    /// the largest positive output (the first quote when none is positive).
    /// Without quotes there is no pool to use.
    pub fn find_best_pool(quotes: &Vec<PoolQuote>) -> (r: Result<usize, RouterError>)
        ensures
            quotes@.len() == 0 ==> r == Err::<usize, RouterError>(RouterError::NoPoolsFound),
            quotes@.len() > 0 ==> (r matches Ok(i) && is_best_quote_index(quotes@, i as int)),
    {
        if quotes.len() == 0 {
            return Err(RouterError::NoPoolsFound);
        }
        let mut best_idx: usize = 0;
        let mut best_out: i128 = 0;
        let mut i: usize = 0;
        while i < quotes.len()
            invariant
                i <= quotes@.len(),
                quotes@.len() > 0,
                best_idx < quotes@.len(),
                best_out >= 0,
                forall|j: int| 0 <= j < i ==> #[trigger] quotes@[j].amount_out <= best_out,
                best_out > 0 ==> quotes@[best_idx as int].amount_out == best_out && best_idx < i,
                best_out > 0 ==> forall|j: int| 0 <= j < best_idx ==> #[trigger] quotes@[j].amount_out < best_out,
                best_out == 0 ==> best_idx == 0,
            decreases quotes@.len() - i,
        {
            let q = quotes[i];
            if q.amount_out > best_out {
                best_out = q.amount_out;
                best_idx = i;
            }
            i = i + 1;
        }
        proof {
            if best_out == 0 && quotes@[0].amount_out > 0 {
                assert(quotes@[0].amount_out <= best_out);
            }
        }
        Ok(best_idx)
    }

    /// Refuses a swap whose expected output is below the caller's minimum.
    pub fn check_output(amount_out: i128, amount_out_min: i128) -> (r: Result<(), RouterError>)
        ensures
            r == (if amount_out < amount_out_min { Err::<(), RouterError>(RouterError::SlippageExceeded) } else { Ok(()) }),
    {
        if amount_out < amount_out_min { Err(RouterError::SlippageExceeded) } else { Ok(()) }
    }

    /// Checks a split swap request and lists, in order, the splits that will run:
    /// those with a positive input.
    pub fn validate_split(
        initialized: bool,
        current_ledger: u32,
        deadline: u32,
        amount_in: i128,
        split_amounts: &Vec<i128>,
    ) -> (r: Result<Vec<usize>, RouterError>)
        requires
            split_amounts@.len() <= u32::MAX,
        ensures
            match split_outcome(initialized, current_ledger, deadline, amount_in, split_amounts@) {
                Ok(count) => r matches Ok(v) && v@ == positive_indices(split_amounts@, split_amounts@.len())
                    && v@.len() == count,
                Err(e) => r == Err::<Vec<usize>, RouterError>(e),
            },
    {
        if !initialized {
            return Err(RouterError::NotInitialized);
        }
        if current_ledger > deadline {
            return Err(RouterError::DeadlineExpired);
        }
        if split_amounts.len() == 0 {
            return Err(RouterError::EmptySplits);
        }
        let mut total: i128 = 0;
        let mut runs: Vec<usize> = Vec::new();
        let mut i: usize = 0;
        while i < split_amounts.len()
            invariant
                i <= split_amounts@.len(),
                split_amounts@.len() <= u32::MAX,
                total == positive_total(split_amounts@, i as nat),
                runs@ == positive_indices(split_amounts@, i as nat),
            decreases split_amounts@.len() - i,
        {
            let a = split_amounts[i];
            if a > 0 {
                total = sat_add_i128(total, a);
                runs.push(i);
            }
            i = i + 1;
        }
        proof {
            lemma_positive_indices_len(split_amounts@, split_amounts@.len());
        }
        if total != amount_in {
            return Err(RouterError::SplitAmountMismatch);
        }
        if runs.len() == 0 {
            return Err(RouterError::EmptySplits);
        }
        Ok(runs)
    }

    /// Adds up the outputs of the executed splits (saturating) and refuses a total
    /// below the caller's minimum.
    pub fn split_total_output(outputs: &Vec<i128>, amount_out_min: i128) -> (r: Result<i128, RouterError>)
        ensures
            r == (if saturating_total(outputs@, outputs@.len()) < amount_out_min {
                Err::<i128, RouterError>(RouterError::SlippageExceeded)
            } else {
                Ok(saturating_total(outputs@, outputs@.len()))
            }),
    {
        let mut total: i128 = 0;
        let mut i: usize = 0;
        while i < outputs.len()
            invariant
                i <= outputs@.len(),
                total == saturating_total(outputs@, i as nat),
            decreases outputs@.len() - i,
        {
            total = sat_add_i128(total, outputs[i]);
            i = i + 1;
        }
        if total < amount_out_min {
            return Err(RouterError::SlippageExceeded);
        }
        Ok(total)
    }

    /// Checks a multi-hop swap request: an initialized router, a deadline not yet
    /// passed, one to four hops and a positive input.
    pub fn validate_multihop(initialized: bool, current_ledger: u32, deadline: u32, path_len: usize, amount_in: i128) -> (r: Result<(), RouterError>)
        ensures
            r == (if !initialized {
                Err::<(), RouterError>(RouterError::NotInitialized)
            } else if current_ledger > deadline {
                Err(RouterError::DeadlineExpired)
            } else if path_len == 0 {
                Err(RouterError::InvalidPath)
            } else if path_len > MAX_HOPS {
                Err(RouterError::PathTooLong)
            } else if amount_in <= 0 {
                Err(RouterError::InvalidAmount)
            } else {
                Ok(())
            }),
    {
        if !initialized {
            return Err(RouterError::NotInitialized);
        }
        if current_ledger > deadline {
            return Err(RouterError::DeadlineExpired);
        }
        if path_len == 0 {
            return Err(RouterError::InvalidPath);
        }
        if path_len > MAX_HOPS as usize {
            return Err(RouterError::PathTooLong);
        }
        if amount_in <= 0 {
            return Err(RouterError::InvalidAmount);
        }
        Ok(())
    }

    /// Checks a multi-hop quote request: an initialized router and one to four hops.
    pub fn validate_quote_multihop(initialized: bool, path_len: usize) -> (r: Result<(), RouterError>)
        ensures
            r == (if !initialized {
                Err::<(), RouterError>(RouterError::NotInitialized)
            } else if path_len == 0 {
                Err(RouterError::InvalidPath)
            } else if path_len > MAX_HOPS {
                Err(RouterError::PathTooLong)
            } else {
                Ok(())
            }),
    {
        if !initialized {
            return Err(RouterError::NotInitialized);
        }
        if path_len == 0 {
            return Err(RouterError::InvalidPath);
        }
        if path_len > MAX_HOPS as usize {
            return Err(RouterError::PathTooLong);
        }
        Ok(())
    }

    /// The minimum output asked of a hop: the caller's minimum for the last hop,
    /// dust protection for the others.
    pub fn hop_min_out(index: usize, path_len: usize, amount_out_min: i128) -> (r: i128)
        requires
            index < path_len,
        ensures
            r == hop_min_out_spec(index, path_len, amount_out_min),
    {
        if index == path_len - 1 { amount_out_min } else { MIN_OUTPUT }
    }
    /// Gathers the quotes of the tiers that have one, in tier order, each with the
    /// index of its tier; tiers without a pool or with an invalid preview are
    /// skipped. `lookups[i]` describes `fee_tiers[i]`.
    pub fn get_quotes_for_tiers(fee_tiers: &Vec<u32>, lookups: &Vec<TierLookup>) -> (r: Vec<(usize, PoolQuote)>)
        requires
            fee_tiers@.len() == lookups@.len(),
        ensures
            r@ == quotes_of(fee_tiers@, lookups@, fee_tiers@.len()),
    {
        let mut quotes: Vec<(usize, PoolQuote)> = Vec::new();
        let mut i: usize = 0;
        while i < fee_tiers.len()
            invariant
                i <= fee_tiers@.len(),
                fee_tiers@.len() == lookups@.len(),
                quotes@ == quotes_of(fee_tiers@, lookups@, i as nat),
            decreases fee_tiers@.len() - i,
        {
            let lookup = lookups[i];
            match Self::get_single_quote(fee_tiers[i], lookup.pool_found, lookup.preview) {
                Ok(q) => quotes.push((i, q)),
                Err(_) => {},
            }
            i = i + 1;
        }
        quotes
    }

    /// Plans hop `index` of a multi-hop swap of `path_len` hops, carrying
    /// `current_amount` (the swap's input for the first hop, the previous hop's
    /// output after). A hop without a pool ends the swap.
    pub fn plan_hop(index: usize, path_len: usize, current_amount: i128, amount_out_min: i128, pool_found: bool) -> (r: Result<HopPlan, RouterError>)
        requires
            index < path_len,
        ensures
            r == (if !pool_found {
                Err::<HopPlan, RouterError>(RouterError::PoolNotFound)
            } else {
                Ok(HopPlan {
                    amount_in: current_amount,
                    min_out: hop_min_out_spec(index, path_len, amount_out_min),
                    pull_from_sender: index == 0,
                    to_recipient: index + 1 == path_len,
                })
            }),
    {
        if !pool_found {
            return Err(RouterError::PoolNotFound);
        }
        Ok(HopPlan {
            amount_in: current_amount,
            min_out: Self::hop_min_out(index, path_len, amount_out_min),
            pull_from_sender: index == 0,
            to_recipient: index == path_len - 1,
        })
    }
}

} // verus!
