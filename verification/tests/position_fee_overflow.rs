// Fee accrual uses full-width math: liquidity * delta = 2^70 * 2^64 = 2^134
// does not fit in u128, and the fee must still come out exact, 2^70.

use belugaswap::position::{calculate_pending_fees, update_position, Position};
use soroban_sdk::Env;

#[test]
fn test_large_position_fees_not_dropped_on_overflow() {
    let env = Env::default();
    let pos = Position {
        liquidity: 1 << 70,
        fee_growth_inside_last_0: 0,
        fee_growth_inside_last_1: 0,
        tokens_owed_0: 0,
        tokens_owed_1: 0,
    };

    let (pending_0, pending_1) = calculate_pending_fees(&env, &pos, 1u128 << 64, 0);

    assert_eq!(pending_0, 1u128 << 70, "fee must be exact, not dropped to 0");
    assert_eq!(pending_1, 0);
}

#[test]
fn test_update_position_credits_large_fee() {
    let env = Env::default();
    let mut pos = Position {
        liquidity: 1 << 70,
        fee_growth_inside_last_0: 0,
        fee_growth_inside_last_1: 0,
        tokens_owed_0: 0,
        tokens_owed_1: 0,
    };

    update_position(&env, &mut pos, 1u128 << 64, 0);

    assert_eq!(pos.tokens_owed_0, 1u128 << 70);
    assert_eq!(pos.fee_growth_inside_last_0, 1u128 << 64);
}
