use token_swap::curve::calculator::{
    CurveCalculator, RoundDirection, SwapWithoutFeesResult, TradeDirection, TradingTokenResult,
};
use token_swap::curve::math::{
    checked_ceil_quotient, checked_difference, checked_product, checked_quotient, checked_sum,
    close,
};
use token_swap::curve::stable::{
    compute_d, compute_new_destination_amount, compute_share, invariant_held, step_d, step_y,
    StableCurve, STABLE_CURVE_LEN,
};

#[test]
fn checked_arithmetic_yields_nothing_on_failure() {
    assert_eq!(checked_product(Some(6), Some(7)), Some(42));
    assert_eq!(checked_product(Some(u128::MAX), Some(2)), None);
    assert_eq!(checked_product(None, Some(2)), None);
    assert_eq!(checked_sum(Some(u128::MAX - 1), Some(1)), Some(u128::MAX));
    assert_eq!(checked_sum(Some(u128::MAX), Some(1)), None);
    assert_eq!(checked_sum(Some(1), None), None);
    assert_eq!(checked_difference(Some(5), Some(5)), Some(0));
    assert_eq!(checked_difference(Some(5), Some(6)), None);
    assert_eq!(checked_quotient(Some(7), Some(2)), Some(3));
    assert_eq!(checked_quotient(Some(7), Some(0)), None);
    assert_eq!(checked_ceil_quotient(Some(7), Some(2)), Some(4));
    assert_eq!(checked_ceil_quotient(Some(8), Some(2)), Some(4));
    assert_eq!(checked_ceil_quotient(Some(u128::MAX), Some(2)), Some((u128::MAX / 2) + 1));
    assert_eq!(checked_ceil_quotient(Some(0), Some(0)), None);
    assert_eq!(checked_ceil_quotient(None, Some(3)), None);
}

#[test]
fn close_means_at_most_one_apart() {
    assert!(close(5, 5));
    assert!(close(5, 6));
    assert!(close(6, 5));
    assert!(!close(5, 7));
    assert!(!close(7, 5));
    assert!(close(u128::MAX, u128::MAX - 1));
    assert!(!close(0, u128::MAX));
}

#[test]
fn invariant_of_balanced_reserves_is_their_sum() {
    assert_eq!(compute_d(100, 1_000_000, 1_000_000), Some(2_000_000));
    assert_eq!(compute_d(1, 1_000, 1_000), Some(2_000));
}

#[test]
fn invariant_of_unbalanced_reserves_is_below_their_sum() {
    assert_eq!(compute_d(100, 1_000_000, 2_000_000), Some(2_998_146));
    assert_eq!(
        compute_d(85, 5_000_000_000_000, 7_000_000_000_000),
        Some(11_998_007_631_458)
    );
}

#[test]
fn invariant_fails_rather_than_wraps() {
    assert_eq!(compute_d(0, 1_000, 1_000), None);
    assert_eq!(compute_d(100, 0, 1_000), None);
    assert_eq!(compute_d(100, 1_000, 0), None);
    assert_eq!(compute_d(100, 0, 0), None);
    assert_eq!(compute_d(100, 1 << 127, 1 << 127), None);
    assert_eq!(compute_d(100, 1 << 100, 1 << 100), None);
}

#[test]
fn newton_steps_follow_their_formulas() {
    // leverage 200, reserves 1_000_000 and 2_000_000, estimate 3_000_000
    // P = 3e6 * 3e6 / 2e6 * 3e6 / 4e6 = 3_375_000
    // (200 * 3e6 + 2 * P) * 3e6 / (199 * 3e6 + 3 * P)
    let expected = (200u128 * 3_000_000 + 2 * 3_375_000) * 3_000_000
        / (199 * 3_000_000 + 3 * 3_375_000);
    assert_eq!(step_d(200, 1_000_000, 2_000_000, 3_000_000), Some(expected));
    assert_eq!(step_d(0, 1_000_000, 2_000_000, 3_000_000), None);
    // (y * y + c) / (2 * y + b - d)
    assert_eq!(step_y(10, 50, 40, 20), Some((400 + 10) / (40 + 50 - 40)));
    assert_eq!(step_y(10, 0, 40, 20), None);
    assert_eq!(step_y(10, 10, 50, 20), None);
}

#[test]
fn destination_reserve_keeps_the_invariant() {
    assert_eq!(
        compute_new_destination_amount(100, 1_010_000, 2_000_000),
        Some(990_000)
    );
    assert_eq!(compute_new_destination_amount(1, 1_010_000, 2_000_000), Some(990_049));
    assert_eq!(compute_new_destination_amount(0, 1_010_000, 2_000_000), None);
    assert_eq!(compute_new_destination_amount(100, 0, 2_000_000), None);
}

#[test]
fn tolerance_is_two_plus_a_millionth() {
    assert!(invariant_held(1_000, 1_002));
    assert!(invariant_held(1_000, 998));
    assert!(!invariant_held(1_000, 1_003));
    assert!(!invariant_held(1_000, 997));
    assert!(invariant_held(5_000_000, 5_000_007));
    assert!(invariant_held(5_000_000, 4_999_993));
    assert!(!invariant_held(5_000_000, 5_000_008));
    assert!(!invariant_held(5_000_000, 4_999_992));
    assert!(invariant_held(u128::MAX, u128::MAX));
}

#[test]
fn swap_without_fees_exact_values() {
    let curve = StableCurve { amp: 100 };
    assert_eq!(
        curve.swap_without_fees(10_000, 1_000_000, 1_000_000, TradeDirection::AtoB),
        Some(SwapWithoutFeesResult {
            source_amount_swapped: 10_000,
            destination_amount_swapped: 10_000,
        })
    );
    let flat = StableCurve { amp: 1 };
    assert_eq!(
        flat.swap_without_fees(10_000, 1_000_000, 1_000_000, TradeDirection::AtoB),
        Some(SwapWithoutFeesResult {
            source_amount_swapped: 10_000,
            destination_amount_swapped: 9_951,
        })
    );
    let wide = StableCurve { amp: 85 };
    assert_eq!(
        wide.swap_without_fees(
            3_000_000_000,
            5_000_000_000_000,
            7_000_000_000_000,
            TradeDirection::BtoA
        ),
        Some(SwapWithoutFeesResult {
            source_amount_swapped: 3_000_000_000,
            destination_amount_swapped: 3_012_292_129,
        })
    );
}

#[test]
fn swap_without_fees_ignores_the_direction() {
    let curve = StableCurve { amp: 100 };
    assert_eq!(
        curve.swap_without_fees(777, 1_000_000, 2_000_000, TradeDirection::AtoB),
        curve.swap_without_fees(777, 1_000_000, 2_000_000, TradeDirection::BtoA)
    );
}

#[test]
fn swap_without_fees_refuses_what_it_cannot_price() {
    let curve = StableCurve { amp: 100 };
    assert_eq!(curve.swap_without_fees(0, 1_000_000, 1_000_000, TradeDirection::AtoB), None);
    assert_eq!(curve.swap_without_fees(10, 0, 1_000_000, TradeDirection::AtoB), None);
    assert_eq!(curve.swap_without_fees(10, 1_000_000, 0, TradeDirection::AtoB), None);
    assert_eq!(curve.swap_without_fees(1, u128::MAX, 1_000, TradeDirection::AtoB), None);
    assert_eq!(
        curve.swap_without_fees(1_000_000_000, 1_000_000, 1_000_000, TradeDirection::AtoB),
        None
    );
    let unset = StableCurve::default();
    assert_eq!(unset.amp, 0);
    assert_eq!(unset.swap_without_fees(10, 1_000_000, 1_000_000, TradeDirection::AtoB), None);
}

#[test]
fn swap_outside_the_tolerance_is_refused() {
    // The reserves are so far apart that the invariant computed after the
    // swap is a tenth below the one before it.
    let curve = StableCurve { amp: 1_000_000 };
    assert_eq!(compute_d(1_000_000, 45_237_684, 62_151), Some(45_295_725));
    assert_eq!(
        compute_new_destination_amount(1_000_000, 45_237_684 + 44_334_474, 45_295_725),
        Some(2)
    );
    assert_eq!(compute_d(1_000_000, 45_237_684 + 44_334_474, 2), Some(41_106_397));
    assert!(!invariant_held(45_295_725, 41_106_397));
    assert_eq!(
        curve.swap_without_fees(44_334_474, 45_237_684, 62_151, TradeDirection::AtoB),
        None
    );
}

#[test]
fn invariant_stays_within_tolerance_across_swaps() {
    let cases: [(u64, u128, u128, u128); 6] = [
        (100, 10_000, 1_000_000, 1_000_000),
        (1, 10_000, 1_000_000, 1_000_000),
        (85, 3_000_000_000, 5_000_000_000_000, 7_000_000_000_000),
        (10, 123_456, 9_876_543, 8_765_432),
        (1_000, 5, 1_000, 1_200),
        (2, 400_000, 1_000_000, 3_000_000),
    ];
    for (amp, amount, source, destination) in cases {
        let curve = StableCurve { amp };
        let before = compute_d(amp, source, destination).unwrap();
        let swapped = curve
            .swap_without_fees(amount, source, destination, TradeDirection::AtoB)
            .unwrap();
        let after = compute_d(
            amp,
            source + swapped.source_amount_swapped,
            destination - swapped.destination_amount_swapped,
        )
        .unwrap();
        let moved = if after > before { after - before } else { before - after };
        assert!(moved <= 2 + before / 1_000_000);
        assert!(invariant_held(before, after));
        assert_eq!(swapped.source_amount_swapped, amount);
        assert!(swapped.destination_amount_swapped < destination);
    }
}

#[test]
fn proportional_amounts_round_as_asked() {
    let curve = StableCurve { amp: 100 };
    assert_eq!(
        curve.pool_tokens_to_trading_tokens(10, 30, 100, 200, RoundDirection::Floor),
        Some(TradingTokenResult { token_a_amount: 33, token_b_amount: 66 })
    );
    assert_eq!(
        curve.pool_tokens_to_trading_tokens(10, 30, 100, 200, RoundDirection::Ceiling),
        Some(TradingTokenResult { token_a_amount: 34, token_b_amount: 67 })
    );
    assert_eq!(
        curve.pool_tokens_to_trading_tokens(30, 30, 100, 200, RoundDirection::Ceiling),
        Some(TradingTokenResult { token_a_amount: 100, token_b_amount: 200 })
    );
    assert_eq!(
        curve.pool_tokens_to_trading_tokens(0, 30, 100, 200, RoundDirection::Ceiling),
        Some(TradingTokenResult { token_a_amount: 0, token_b_amount: 0 })
    );
    assert_eq!(compute_share(10, 30, 100, RoundDirection::Floor), Some(33));
    assert_eq!(compute_share(10, 30, 100, RoundDirection::Ceiling), Some(34));
    assert_eq!(compute_share(10, 0, 100, RoundDirection::Floor), None);
    assert_eq!(compute_share(u128::MAX, 1, 2, RoundDirection::Floor), None);
}

#[test]
fn proportional_amounts_refuse_more_than_the_supply() {
    let curve = StableCurve { amp: 100 };
    assert_eq!(
        curve.pool_tokens_to_trading_tokens(31, 30, 100, 200, RoundDirection::Floor),
        None
    );
    assert_eq!(curve.pool_tokens_to_trading_tokens(0, 0, 100, 200, RoundDirection::Floor), None);
    assert_eq!(
        curve.pool_tokens_to_trading_tokens(1 << 100, 1 << 100, 1 << 100, 1, RoundDirection::Floor),
        None
    );
}

#[test]
fn single_deposit_is_worth_the_growth_of_the_invariant() {
    let curve = StableCurve { amp: 100 };
    assert_eq!(
        curve.deposit_single_token_type(
            10_000,
            1_000_000,
            1_000_000,
            1_000_000_000,
            TradeDirection::AtoB
        ),
        Some(4_999_500)
    );
    assert_eq!(
        curve.deposit_single_token_type(
            10_000,
            1_000_000,
            2_000_000,
            1_000_000_000,
            TradeDirection::BtoA
        ),
        Some(3_324_054)
    );
    assert_eq!(
        curve.deposit_single_token_type(1, u128::MAX, 1_000, 1_000, TradeDirection::AtoB),
        None
    );
}

#[test]
fn single_withdrawal_costs_the_loss_of_the_invariant() {
    let curve = StableCurve { amp: 100 };
    assert!(curve.allows_single_token_withdrawal());
    assert_eq!(
        curve.withdraw_single_token_type_exact_out(
            10_000,
            1_000_000,
            1_000_000,
            1_000_000_000,
            TradeDirection::AtoB
        ),
        Some(5_000_500)
    );
    assert_eq!(
        curve.withdraw_single_token_type_exact_out(
            10_000,
            1_000_000,
            2_000_000,
            1_000_000_000,
            TradeDirection::BtoA
        ),
        Some(3_324_055)
    );
}

#[test]
fn single_withdrawal_refuses_more_than_the_pool_holds() {
    let curve = StableCurve { amp: 100 };
    assert_eq!(
        curve.withdraw_single_token_type_exact_out(
            1_000_001,
            1_000_000,
            1_000_000,
            1_000_000_000,
            TradeDirection::AtoB
        ),
        None
    );
    assert_eq!(
        curve.withdraw_single_token_type_exact_out(
            1_000_000,
            1_000_000,
            1_000_000,
            1_000_000_000,
            TradeDirection::AtoB
        ),
        None
    );
}

#[test]
fn stable_curve_packs_its_amplification() {
    let curve = StableCurve { amp: 0x0102_0304_0506_0708 };
    assert_eq!(StableCurve::packed_len(), STABLE_CURVE_LEN);
    let mut buffer = [0x55u8; 12];
    curve.pack_into_slice(&mut buffer);
    assert_eq!(buffer, [8, 7, 6, 5, 4, 3, 2, 1, 0x55, 0x55, 0x55, 0x55]);
    assert_eq!(StableCurve::unpack_from_slice(&buffer), Ok(curve));
}
