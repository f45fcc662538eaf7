//! Tests of the constant-product curve arithmetic.

use amm_core::curve::{
    delta_x_from_y_swap, delta_y_from_x_swap, lp_tokens_for_initial_deposit, xy_deposit_amounts,
    xy_withdraw_amounts, CurveError,
};

/// Instruction payload with the Withdraw wire tag in front.
fn build_withdraw_instruction_data(amount: u64, min_x: u64, min_y: u64, expiration: i64) -> Vec<u8> {
    let mut data = vec![2u8];
    data.extend_from_slice(&amount.to_le_bytes());
    data.extend_from_slice(&min_x.to_le_bytes());
    data.extend_from_slice(&min_y.to_le_bytes());
    data.extend_from_slice(&expiration.to_le_bytes());
    data
}

/// Instruction payload with the Swap wire tag in front.
fn build_swap_instruction_data(is_x: bool, amount: u64, min_out: u64, expiration: i64) -> Vec<u8> {
    let mut data = vec![3u8];
    data.push(if is_x { 1 } else { 0 });
    data.extend_from_slice(&amount.to_le_bytes());
    data.extend_from_slice(&min_out.to_le_bytes());
    data.extend_from_slice(&expiration.to_le_bytes());
    data
}

#[test]
fn test_withdraw_partial_instruction_data() {
    let (wx, wy) = xy_withdraw_amounts(1000, 2000, 5000, 1000).unwrap();
    assert!(wx > 0 && wy > 0);
    let data = build_withdraw_instruction_data(1000, wx - 1, wy - 1, 0);
    assert_eq!(data[0], 2);
    assert_eq!(u64::from_le_bytes(data[1..9].try_into().unwrap()), 1000);
}

#[test]
fn test_swap_x_for_y_curve() {
    let out_y = delta_y_from_x_swap(1_000_000, 2_000_000, 100_000, 30).unwrap();
    assert!(out_y > 0 && out_y < 2_000_000);
}

#[test]
fn test_swap_y_for_x_curve() {
    let out_x = delta_x_from_y_swap(1_000_000, 2_000_000, 100_000, 30).unwrap();
    assert!(out_x > 0 && out_x < 1_000_000);
}

#[test]
fn test_swap_fail_slippage_min_greater_than_out() {
    let out_y = delta_y_from_x_swap(1_000_000, 2_000_000, 100_000, 30).unwrap();
    let min_greater = out_y + 1;
    let _data = build_swap_instruction_data(true, 100_000, min_greater, 0);
    assert!(min_greater > out_y);
}

#[test]
fn test_deposit_second_curve() {
    let (dx, dy) = xy_deposit_amounts(1000, 2000, 5000, 500).unwrap();
    assert!(dx > 0 && dy > 0);
}

#[test]
fn test_swap_scenario_exact_output() {
    // 0.3% fee: exact fee-reduced input 99_700, new X reserve 1_099_700,
    // kept Y reserve 1_818_677.
    let out = delta_y_from_x_swap(1_000_000, 2_000_000, 100_000, 30).unwrap();
    assert_eq!(out, 181_323);
    assert!(out > 0 && out < 2_000_000);
    let fee_free = delta_y_from_x_swap(1_000_000, 2_000_000, 100_000, 0).unwrap();
    assert_eq!(fee_free, 181_819);
    assert!(out < fee_free);
}

#[test]
fn test_swap_zero_reserve_zero_balance() {
    assert_eq!(
        delta_y_from_x_swap(0, 2_000_000, 100_000, 30),
        Err(CurveError::ZeroBalance)
    );
    assert_eq!(
        delta_x_from_y_swap(1_000_000, 0, 100_000, 30),
        Err(CurveError::ZeroBalance)
    );
}

#[test]
fn test_swap_output_grows_with_input() {
    let small = delta_y_from_x_swap(1_000_000, 2_000_000, 50_000, 30).unwrap();
    let large = delta_y_from_x_swap(1_000_000, 2_000_000, 100_000, 30).unwrap();
    assert!(small <= large);
}

#[test]
fn test_swap_round_trip_never_profits() {
    let x = 1_000_000u64;
    let y = 2_000_000u64;
    let amount_in = 100_000u64;
    let out1 = delta_y_from_x_swap(x, y, amount_in, 30).unwrap();
    // The pool keeps the whole input, fee included.
    let x_after = x + amount_in;
    let y_after = y - out1;
    let out2 = delta_x_from_y_swap(x_after, y_after, out1, 30).unwrap();
    assert!(out2 <= amount_in);
}

#[test]
fn test_deposit_proportional_scenario() {
    // Requesting 10% more shares owes 10% of each reserve.
    let (dx, dy) = xy_deposit_amounts(1000, 2000, 5000, 500).unwrap();
    assert_eq!(dx, 100);
    assert_eq!(dy, 200);
}

#[test]
fn test_deposit_zero_supply_zero_balance() {
    assert_eq!(
        xy_deposit_amounts(1000, 2000, 0, 500),
        Err(CurveError::ZeroBalance)
    );
}

#[test]
fn test_deposit_overflow_checked() {
    assert_eq!(
        xy_deposit_amounts(u64::MAX, 1, 1, u64::MAX),
        Err(CurveError::Overflow)
    );
}

#[test]
fn test_withdraw_more_shares_than_supply_zero_balance() {
    assert_eq!(
        xy_withdraw_amounts(1000, 2000, 5000, 6000),
        Err(CurveError::ZeroBalance)
    );
    assert_eq!(
        xy_withdraw_amounts(1000, 2000, 0, 1),
        Err(CurveError::ZeroBalance)
    );
}

#[test]
fn test_withdraw_exact_fifth() {
    let (wx, wy) = xy_withdraw_amounts(1000, 2000, 5000, 1000).unwrap();
    assert_eq!(wx, 200);
    assert_eq!(wy, 400);
}

#[test]
fn test_deposit_withdraw_round_trip_exact() {
    // Doubling the share supply then burning the new shares: with exact
    // divisions the payout equals the deposit, never more.
    let (dx, dy) = xy_deposit_amounts(1000, 2000, 1000, 1000).unwrap();
    assert_eq!((dx, dy), (1000, 2000));
    let (wx, wy) = xy_withdraw_amounts(1000 + dx, 2000 + dy, 2000, 1000).unwrap();
    assert!(wx <= dx && wy <= dy);
    assert_eq!((wx, wy), (1000, 2000));
}

#[test]
fn test_deposit_withdraw_round_trip_rounding() {
    // When the fixed-point ratios do not divide evenly, both the deposit
    // charge and the remain-ratio are rounded down, and the rounded
    // remain-ratio can under-count what stays in the pool: here each
    // payout exceeds its deposit by one unit.
    let (dx, dy) = xy_deposit_amounts(1000, 2000, 5000, 500).unwrap();
    assert_eq!((dx, dy), (100, 200));
    let (wx, wy) = xy_withdraw_amounts(1000 + dx, 2000 + dy, 5500, 500).unwrap();
    assert_eq!((wx, wy), (101, 201));
}

#[test]
fn test_initial_deposit_takes_larger_amount() {
    assert_eq!(lp_tokens_for_initial_deposit(1_000_000, 2_000_000).unwrap(), 2_000_000);
    assert_eq!(lp_tokens_for_initial_deposit(7, 3).unwrap(), 7);
    assert_eq!(
        lp_tokens_for_initial_deposit(0, 5),
        Err(CurveError::ZeroBalance)
    );
}

#[test]
fn test_curve_functions_pure() {
    // Identical inputs, identical outputs, no hidden state.
    assert_eq!(
        delta_y_from_x_swap(1_000_000, 2_000_000, 100_000, 30),
        delta_y_from_x_swap(1_000_000, 2_000_000, 100_000, 30)
    );
    assert_eq!(
        delta_x_from_y_swap(1_000_000, 2_000_000, 100_000, 30),
        delta_x_from_y_swap(1_000_000, 2_000_000, 100_000, 30)
    );
    assert_eq!(
        xy_deposit_amounts(1000, 2000, 5000, 500),
        xy_deposit_amounts(1000, 2000, 5000, 500)
    );
    assert_eq!(
        xy_withdraw_amounts(1000, 2000, 5000, 500),
        xy_withdraw_amounts(1000, 2000, 5000, 500)
    );
    assert_eq!(
        lp_tokens_for_initial_deposit(1000, 2000),
        lp_tokens_for_initial_deposit(1000, 2000)
    );
}
