// Router decisions: request checks, quote gathering and selection, splits and hops.

use belugaswap::router::{BelugaRouter, HopPlan, PoolQuote, RouterError, TierLookup};
use belugaswap::swap::{PreviewError, PreviewResult};

fn quote(fee_bps: u32, amount_out: i128) -> PoolQuote {
    PoolQuote { fee_bps, amount_out, price_impact_bps: 0 }
}

#[test]
fn router_initialize_once() {
    assert_eq!(BelugaRouter::initialize(false), Ok(()));
    assert_eq!(BelugaRouter::initialize(true), Err(RouterError::AlreadyInitialized));
    assert_eq!(BelugaRouter::require_initialized(false), Err(RouterError::NotInitialized));
}

#[test]
fn router_default_tiers() {
    assert_eq!(BelugaRouter::default_fee_tiers(), vec![5, 30, 100]);
    assert_eq!(BelugaRouter::select_fee_tiers(vec![]), vec![5, 30, 100]);
    assert_eq!(BelugaRouter::select_fee_tiers(vec![30]), vec![30]);
}

#[test]
fn router_exact_input_checks() {
    assert_eq!(BelugaRouter::validate_exact_input(false, 10, 20, 5), Err(RouterError::NotInitialized));
    assert_eq!(BelugaRouter::validate_exact_input(true, 21, 20, 5), Err(RouterError::DeadlineExpired));
    assert_eq!(BelugaRouter::validate_exact_input(true, 20, 20, 0), Err(RouterError::InvalidAmount));
    assert_eq!(BelugaRouter::validate_exact_input(true, 20, 20, 1), Ok(()));
}

#[test]
fn router_best_pool_is_first_largest() {
    assert_eq!(BelugaRouter::find_best_pool(&vec![]), Err(RouterError::NoPoolsFound));
    let quotes = vec![quote(5, 10), quote(30, 40), quote(100, 40)];
    assert_eq!(BelugaRouter::find_best_pool(&quotes), Ok(1));
    let none_positive = vec![quote(5, 0), quote(30, -3)];
    assert_eq!(BelugaRouter::find_best_pool(&none_positive), Ok(0));
    let last = vec![quote(5, 0), quote(30, 7)];
    assert_eq!(BelugaRouter::find_best_pool(&last), Ok(1));
}

#[test]
fn router_quotes_skip_tiers_without_pool_or_preview() {
    let tiers = vec![5, 30, 100];
    let lookups = vec![
        TierLookup { pool_found: false, preview: None },
        TierLookup { pool_found: true, preview: Some((900, 12)) },
        TierLookup { pool_found: true, preview: None },
    ];
    let quotes = BelugaRouter::get_quotes_for_tiers(&tiers, &lookups);
    assert_eq!(quotes, vec![(1, PoolQuote { fee_bps: 30, amount_out: 900, price_impact_bps: 12 })]);
    assert_eq!(BelugaRouter::get_single_quote(5, false, None), Err(RouterError::PoolNotFound));
    assert_eq!(BelugaRouter::get_single_quote(5, true, None), Err(RouterError::QuoteFailed));
}

#[test]
fn router_reads_previews() {
    let valid = PreviewResult::valid(1000, 990, 10, 100);
    assert_eq!(BelugaRouter::quote_from_preview(&valid), Some((990, 100)));
    let invalid = PreviewResult::invalid(PreviewError::NoLiquidity);
    assert_eq!(BelugaRouter::quote_from_preview(&invalid), None);
}

#[test]
fn router_output_check() {
    assert_eq!(BelugaRouter::check_output(99, 100), Err(RouterError::SlippageExceeded));
    assert_eq!(BelugaRouter::check_output(100, 100), Ok(()));
}

#[test]
fn router_split_checks() {
    assert_eq!(BelugaRouter::validate_split(false, 0, 10, 100, &vec![100]), Err(RouterError::NotInitialized));
    assert_eq!(BelugaRouter::validate_split(true, 11, 10, 100, &vec![100]), Err(RouterError::DeadlineExpired));
    assert_eq!(BelugaRouter::validate_split(true, 0, 10, 100, &vec![]), Err(RouterError::EmptySplits));
    assert_eq!(BelugaRouter::validate_split(true, 0, 10, 100, &vec![60, 30]), Err(RouterError::SplitAmountMismatch));
    assert_eq!(BelugaRouter::validate_split(true, 0, 10, 0, &vec![0, -5]), Err(RouterError::EmptySplits));
    assert_eq!(BelugaRouter::validate_split(true, 0, 10, 100, &vec![60, 0, 40, -7]), Ok(vec![0, 2]));
    assert_eq!(BelugaRouter::validate_split(true, 0, 10, i128::MAX, &vec![i128::MAX, 1]), Ok(vec![0, 1]));
}

#[test]
fn router_split_totals() {
    assert_eq!(BelugaRouter::split_total_output(&vec![10, 20, 30], 60), Ok(60));
    assert_eq!(BelugaRouter::split_total_output(&vec![10, 20, 30], 61), Err(RouterError::SlippageExceeded));
    assert_eq!(BelugaRouter::split_total_output(&vec![i128::MAX, 5], 0), Ok(i128::MAX));
}

#[test]
fn router_multihop_checks() {
    assert_eq!(BelugaRouter::validate_multihop(true, 0, 10, 0, 100), Err(RouterError::InvalidPath));
    assert_eq!(BelugaRouter::validate_multihop(true, 0, 10, 5, 100), Err(RouterError::PathTooLong));
    assert_eq!(BelugaRouter::validate_multihop(true, 0, 10, 4, 0), Err(RouterError::InvalidAmount));
    assert_eq!(BelugaRouter::validate_multihop(true, 11, 10, 4, 1), Err(RouterError::DeadlineExpired));
    assert_eq!(BelugaRouter::validate_multihop(true, 10, 10, 4, 1), Ok(()));
    assert_eq!(BelugaRouter::validate_quote_multihop(true, 0), Err(RouterError::InvalidPath));
    assert_eq!(BelugaRouter::validate_quote_multihop(true, 5), Err(RouterError::PathTooLong));
    assert_eq!(BelugaRouter::validate_quote_multihop(false, 2), Err(RouterError::NotInitialized));
}

#[test]
fn router_hop_plans() {
    assert_eq!(BelugaRouter::plan_hop(0, 3, 1000, 500, false), Err(RouterError::PoolNotFound));
    assert_eq!(
        BelugaRouter::plan_hop(0, 3, 1000, 500, true),
        Ok(HopPlan { amount_in: 1000, min_out: 1, pull_from_sender: true, to_recipient: false })
    );
    assert_eq!(
        BelugaRouter::plan_hop(2, 3, 700, 500, true),
        Ok(HopPlan { amount_in: 700, min_out: 500, pull_from_sender: false, to_recipient: true })
    );
    assert_eq!(BelugaRouter::hop_min_out(0, 1, 42), 42);
}

#[test]
fn router_error_codes() {
    assert_eq!(RouterError::AlreadyInitialized.code(), 1);
    assert_eq!(RouterError::SlippageExceeded.code(), 14);
    assert_eq!(RouterError::PoolNotFound.code(), 20);
    assert_eq!(RouterError::SplitAmountMismatch.code(), 41);
}
