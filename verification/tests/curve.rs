use stable_swap::curve::{PoolTokenConverter, StableSwap};
use stable_swap::error::SwapError;
use stable_swap::helpers::{to_u128, to_u64};

#[test]
fn invariant_of_balanced_pool_is_the_sum() {
    let curve = StableSwap::new(85).unwrap();
    assert_eq!(curve.compute_d(5000, 5000), Some(10000));
    assert_eq!(
        StableSwap::new(1)
            .unwrap()
            .compute_d(1_000_000_000_000, 1_000_000_000_000),
        Some(2_000_000_000_000)
    );
}

#[test]
fn invariant_of_unbalanced_pool_is_below_the_sum() {
    let curve = StableSwap::new(1).unwrap();
    assert_eq!(curve.compute_d(1000, 2000), Some(2912));
    assert_eq!(curve.compute_d(1000, 9000), Some(7635));
    assert_eq!(curve.compute_d(1100, 9900), Some(8399));
    assert_eq!(curve.compute_d(1, 11), Some(8));
    assert_eq!(StableSwap::new(85).unwrap().compute_d(4906, 5100), Some(10005));
}

#[test]
fn invariant_of_empty_pool_is_zero() {
    assert_eq!(StableSwap::new(1).unwrap().compute_d(0, 0), Some(0));
    assert_eq!(StableSwap::new(85).unwrap().compute_d(0, 0), Some(0));
}

#[test]
fn invariant_with_one_empty_reserve_fails() {
    let curve = StableSwap::new(1).unwrap();
    assert_eq!(curve.compute_d(1000, 0), None);
    assert_eq!(curve.compute_d(0, 1000), None);
}

#[test]
fn invariant_fails_instead_of_wrapping() {
    let curve = StableSwap::new(1).unwrap();
    let max = u64::MAX as u128;
    assert_eq!(curve.compute_d(max, max), None);
    assert_eq!(curve.compute_d(u128::MAX, 1), None);
    assert_eq!(curve.compute_d(1u128 << 63, 1), None);
    let steep = StableSwap {
        amp_factor: u128::MAX,
    };
    assert_eq!(steep.compute_d(1000, 1000), None);
}

#[test]
fn invariant_settles_for_a_lopsided_pool() {
    let curve = StableSwap::new(1).unwrap();
    let d = curve.compute_d(1, 1_000_000_000).unwrap();
    assert!(d > 0 && d < 1_000_000_001);
}

#[test]
fn zero_amplification_is_refused() {
    assert_eq!(
        StableSwap::new(0).unwrap_err(),
        SwapError::CalculationFailure
    );
    assert_eq!(StableSwap::new(1).unwrap().amp_factor, 1);
    assert_eq!(
        StableSwap::new(u64::MAX).unwrap().amp_factor,
        u64::MAX as u128
    );
}

#[test]
fn counter_balance_of_the_known_reserve() {
    let curve = StableSwap::new(85).unwrap();
    assert_eq!(curve.compute_y(5000, 10000), Some(5000));
    assert_eq!(curve.compute_y(5100, 10000), Some(4900));
    assert_eq!(curve.compute_y(5006, 10005), Some(4999));
    assert_eq!(StableSwap::new(1).unwrap().compute_y(1, 8), Some(9));
}

#[test]
fn counter_balance_fails_without_a_reserve() {
    let curve = StableSwap::new(85).unwrap();
    assert_eq!(curve.compute_y(0, 10000), None);
    assert_eq!(curve.compute_y(5000, u128::MAX), None);
    let flat = StableSwap { amp_factor: 0 };
    assert_eq!(flat.compute_y(5000, 10000), None);
}

#[test]
fn counter_balance_returns_the_reserve_of_a_balanced_pool() {
    let curve = StableSwap::new(85).unwrap();
    let d = curve.compute_d(5000, 5000).unwrap();
    let y = curve.compute_y(5000, d).unwrap();
    assert!(y >= 4999 && y <= 5001);
}

#[test]
fn swap_takes_the_fee_from_the_output() {
    let curve = StableSwap::new(85).unwrap();
    let first = curve.swap_to(100, 5000, 5000, 6, 100).unwrap();
    assert_eq!(first.new_source_amount, 5100);
    assert_eq!(first.new_destination_amount, 4906);
    assert_eq!(first.amount_swapped, 94);
}

#[test]
fn swap_rounds_the_fee_up() {
    let curve = StableSwap::new(85).unwrap();
    // the gross output is 101, of which six hundredths are 6.06
    let second = curve.swap_to(100, 4906, 5100, 6, 100).unwrap();
    assert_eq!(second.new_source_amount, 5006);
    assert_eq!(second.new_destination_amount, 5006);
    assert_eq!(second.amount_swapped, 94);
}

#[test]
fn swap_without_fee_pays_the_gross_output() {
    let curve = StableSwap::new(85).unwrap();
    let free = curve.swap_to(100, 5000, 5000, 0, 100).unwrap();
    assert_eq!(free.new_source_amount, 5100);
    assert_eq!(free.new_destination_amount, 4900);
    assert_eq!(free.amount_swapped, 100);
    // a zero numerator asks for no division at all
    let undivided = curve.swap_to(100, 5000, 5000, 0, 0).unwrap();
    assert_eq!(undivided.amount_swapped, 100);
}

#[test]
fn swap_without_fee_keeps_the_invariant_of_a_balanced_pool() {
    let curve = StableSwap::new(85).unwrap();
    let before = curve.compute_d(5000, 5000).unwrap();
    let free = curve.swap_to(100, 5000, 5000, 0, 100).unwrap();
    let after = curve
        .compute_d(free.new_source_amount, free.new_destination_amount)
        .unwrap();
    assert_eq!(after, 9999);
    assert!(after + 1 >= before && after <= before + 1);
}

#[test]
fn swap_with_fee_raises_the_invariant_of_a_balanced_pool() {
    let curve = StableSwap::new(85).unwrap();
    let before = curve.compute_d(5000, 5000).unwrap();
    let paid = curve.swap_to(100, 5000, 5000, 6, 100).unwrap();
    let after = curve
        .compute_d(paid.new_source_amount, paid.new_destination_amount)
        .unwrap();
    assert_eq!(after, 10005);
    assert!(after > before);
}

#[test]
fn swap_fails_where_nothing_comes_out() {
    let curve = StableSwap::new(85).unwrap();
    assert!(curve.swap_to(0, 5000, 5000, 6, 100).is_none());
}

#[test]
fn swap_fails_on_a_fee_it_cannot_take() {
    let curve = StableSwap::new(85).unwrap();
    // no denominator
    assert!(curve.swap_to(100, 5000, 5000, 6, 0).is_none());
    // more than the whole output
    assert!(curve.swap_to(100, 5000, 5000, 3, 2).is_none());
    // a product beyond 128 bits
    assert!(curve.swap_to(100, 5000, 5000, u128::MAX, 100).is_none());
    // the whole output
    let all = curve.swap_to(100, 5000, 5000, 1, 1).unwrap();
    assert_eq!(all.amount_swapped, 0);
    assert_eq!(all.new_destination_amount, 5000);
}

#[test]
fn swap_fails_on_an_empty_pool() {
    let curve = StableSwap::new(85).unwrap();
    assert!(curve.swap_to(100, 0, 0, 6, 100).is_none());
    assert!(curve.swap_to(100, 5000, 0, 6, 100).is_none());
    assert!(curve.swap_to(1, u128::MAX, 5000, 6, 100).is_none());
}

#[test]
fn narrowing_fails_above_64_bits() {
    assert_eq!(to_u64(0), Ok(0));
    assert_eq!(to_u64(u64::MAX as u128), Ok(u64::MAX));
    assert_eq!(
        to_u64(u64::MAX as u128 + 1),
        Err(SwapError::ConversionFailure)
    );
    assert_eq!(to_u64(u128::MAX), Err(SwapError::ConversionFailure));
}

#[test]
fn widening_never_fails() {
    assert_eq!(to_u128(0), Ok(0u128));
    assert_eq!(to_u128(7), Ok(7u128));
    assert_eq!(to_u128(u64::MAX), Ok(18_446_744_073_709_551_615u128));
}

#[test]
fn converter_is_pro_rata() {
    let converter = PoolTokenConverter::new(2912, 1000, 2000);
    assert_eq!(converter.token_a_rate(291), Some(99));
    assert_eq!(converter.token_b_rate(291), Some(199));
    assert_eq!(converter.token_a_rate(2912), Some(1000));
    assert_eq!(converter.token_b_rate(2912), Some(2000));
}

#[test]
fn converter_pays_nothing_for_no_shares() {
    let converter = PoolTokenConverter::new(2912, 1000, 2000);
    assert_eq!(converter.token_a_rate(0), Some(0));
    assert_eq!(converter.token_b_rate(0), Some(0));
}

#[test]
fn converter_fails_without_shares_in_circulation() {
    let converter = PoolTokenConverter::new(0, 1000, 2000);
    assert_eq!(converter.token_a_rate(1), None);
    assert_eq!(converter.token_b_rate(1), None);
    assert_eq!(converter.token_a_rate(0), None);
}

#[test]
fn converter_fails_instead_of_wrapping() {
    let converter = PoolTokenConverter::new(1, u128::MAX, 2);
    assert_eq!(converter.token_a_rate(2), None);
    assert_eq!(converter.token_b_rate(2), Some(4));
}

#[test]
fn small_lopsided_pools_round_coarsely() {
    // a reserve of one against eleven
    let thin = StableSwap::new(1).unwrap();
    assert_eq!(thin.compute_d(1, 11), Some(8));
    assert_eq!(thin.compute_y(1, 8), Some(9));

    // a swap without fee that empties most of the destination
    let curve = StableSwap::new(2).unwrap();
    assert_eq!(curve.compute_d(6, 3), Some(9));
    let free = curve.swap_to(2, 6, 3, 0, 1).unwrap();
    assert_eq!(free.new_source_amount, 8);
    assert_eq!(free.new_destination_amount, 1);
    assert_eq!(free.amount_swapped, 2);
    assert_eq!(curve.compute_d(8, 1), Some(7));

    // a swap with fee that does the same
    assert_eq!(thin.compute_d(19, 5), Some(21));
    let paid = thin.swap_to(18, 19, 5, 6, 100).unwrap();
    assert_eq!(paid.new_source_amount, 37);
    assert_eq!(paid.new_destination_amount, 1);
    assert_eq!(paid.amount_swapped, 4);
    assert_eq!(thin.compute_d(37, 1), Some(20));
}

#[test]
fn invariant_of_a_large_balanced_pool() {
    let x = 1u128 << 61;
    let curve = StableSwap::new(1).unwrap();
    assert_eq!(curve.compute_d(x, x), Some(x * 2));
    assert_eq!(curve.compute_y(x, x * 2), Some(x));
    // a steeper curve leaves 128 bits on the same reserves
    assert_eq!(StableSwap::new(100).unwrap().compute_d(x, x), None);
}
