//! Constant-product curve arithmetic (x * y = k).
//!
//! All amounts are unsigned 64-bit quantities, promoted to 128 bits for
//! intermediate products. Every step either is proved free of overflow or
//! returns an explicit error; nothing wraps and nothing panics.

use vstd::prelude::*;
use vstd::arithmetic::div_mod::{
    lemma_div_by_multiple, lemma_div_by_self, lemma_div_is_ordered,
    lemma_div_is_ordered_by_denominator, lemma_div_multiples_vanish, lemma_div_pos_is_pos,
};
use vstd::arithmetic::mul::{
    lemma_mul_by_zero_is_zero, lemma_mul_inequality, lemma_mul_is_commutative,
    lemma_mul_is_distributive_add, lemma_mul_is_distributive_add_other_way,
    lemma_mul_is_distributive_sub, lemma_mul_left_inequality, lemma_mul_nonnegative,
    lemma_mul_strictly_positive, lemma_mul_upper_bound,
};

verus! {

/// Errors raised by the curve arithmetic.
#[derive(Clone, Copy, Debug, PartialEq, Eq)]
pub enum CurveError {
    Overflow,
    Underflow,
    ZeroBalance,
    SlippageExceeded,
}

/// Fixed-point scale of the proportional deposit/withdraw ratios.
pub const PRECISION: u32 = 1_000_000;

/// Input amount left after the basis-point trading fee is taken out,
/// rounded down (the fee is rounded up, in the pool's favor).
pub open spec fn amount_after_fee(amount_in: int, fee_bps: int) -> int {
    amount_in * (10000 - fee_bps) / 10000
}

/// The out-side reserve after a swap: the invariant product divided by the
/// grown in-side reserve, rounded down.
pub open spec fn swap_new_out_reserve(
    reserve_in: int,
    reserve_out: int,
    amount_in: int,
    fee_bps: int,
) -> int {
    (reserve_in * reserve_out) / (reserve_in + amount_after_fee(amount_in, fee_bps))
}

/// Amount paid out by a swap of `amount_in` against the given reserves.
pub open spec fn swap_output(
    reserve_in: int,
    reserve_out: int,
    amount_in: int,
    fee_bps: int,
) -> int {
    reserve_out - swap_new_out_reserve(reserve_in, reserve_out, amount_in, fee_bps)
}

/// Fixed-point growth ratio of the share supply when `shares_requested`
/// new shares join `total_shares` existing ones.
pub open spec fn deposit_ratio(total_shares: int, shares_requested: int) -> int {
    (total_shares + shares_requested) * (PRECISION as int) / total_shares
}

/// Reserve top-up owed for a proportional deposit.
pub open spec fn deposit_amount(reserve: int, total_shares: int, shares_requested: int) -> int {
    reserve * deposit_ratio(total_shares, shares_requested) / (PRECISION as int) - reserve
}

/// Fixed-point ratio of the share supply that remains after burning
/// `shares_burned` of `total_shares`.
pub open spec fn withdraw_ratio(total_shares: int, shares_burned: int) -> int {
    (total_shares - shares_burned) * (PRECISION as int) / total_shares
}

/// Reserve amount paid out for a proportional withdrawal: the reserve
/// minus its kept share under the rounded-down remaining ratio.
pub open spec fn withdraw_amount(reserve: int, total_shares: int, shares_burned: int) -> int {
    reserve - reserve * withdraw_ratio(total_shares, shares_burned) / (PRECISION as int)
}

/// Shares minted by the very first deposit: the larger of the two amounts.
pub open spec fn initial_shares(x: int, y: int) -> int {
    if x >= y {
        x
    } else {
        y
    }
}

/// Amount of Y paid out when depositing `amount_in` of X (swap X for Y).
///
/// The invariant product `k = x * y` is held: the output is
/// `y - k / (x + amount_in_after_fee)`, both divisions rounding down.
pub fn delta_y_from_x_swap(x: u64, y: u64, amount_in: u64, fee_bps: u16) -> (r: Result<
    u64,
    CurveError,
>)
    requires
        fee_bps < 10000,
    ensures
        x == 0 || y == 0 ==> r matches Err(CurveError::ZeroBalance),
        x > 0 && y > 0 ==> (r matches Ok(out) && out == swap_output(
            x as int,
            y as int,
            amount_in as int,
            fee_bps as int,
        ) && out <= y),
{
    if x == 0 || y == 0 {
        return Err(CurveError::ZeroBalance);
    }
    proof {
        lemma_mul_upper_bound(amount_in as int, u64::MAX as int, (10000 - fee_bps) as int, 10000);
    }
    let scaled_in: u128 = (amount_in as u128) * ((10000 - fee_bps) as u128);
    let after_fee: u128 = scaled_in / 10000;
    proof {
        lemma_mul_inequality((10000 - fee_bps) as int, 10000, amount_in as int);
        lemma_mul_is_commutative(amount_in as int, (10000 - fee_bps) as int);
        lemma_mul_is_commutative(amount_in as int, 10000);
        lemma_div_is_ordered(
            (amount_in as int) * ((10000 - fee_bps) as int),
            10000 * (amount_in as int),
            10000,
        );
        lemma_div_multiples_vanish(amount_in as int, 10000);
    }
    assert(after_fee <= amount_in);
    proof {
        lemma_mul_upper_bound(x as int, u64::MAX as int, y as int, u64::MAX as int);
    }
    let k: u128 = (x as u128) * (y as u128);
    let x_new: u128 = (x as u128) + after_fee;
    let y_new: u128 = k / x_new;
    proof {
        lemma_div_is_ordered_by_denominator((x as int) * (y as int), x as int, x_new as int);
        lemma_div_multiples_vanish(y as int, x as int);
    }
    assert(y_new <= y);
    let delta_y: u64 = y - (y_new as u64);
    Ok(delta_y)
}

/// Amount of X paid out when depositing `amount_in` of Y (swap Y for X):
/// the same routine with the reserves exchanged.
pub fn delta_x_from_y_swap(x: u64, y: u64, amount_in: u64, fee_bps: u16) -> (r: Result<
    u64,
    CurveError,
>)
    requires
        fee_bps < 10000,
    ensures
        x == 0 || y == 0 ==> r matches Err(CurveError::ZeroBalance),
        x > 0 && y > 0 ==> (r matches Ok(out) && out == swap_output(
            y as int,
            x as int,
            amount_in as int,
            fee_bps as int,
        ) && out <= x),
{
    delta_y_from_x_swap(y, x, amount_in, fee_bps)
}

/// Amounts of X and Y owed for minting `lp_amount` new shares against a
/// supply of `l` shares, each rounded via the fixed-point growth ratio.
pub fn xy_deposit_amounts(x: u64, y: u64, l: u64, lp_amount: u64) -> (r: Result<
    (u64, u64),
    CurveError,
>)
    ensures
        l == 0 ==> r matches Err(CurveError::ZeroBalance),
        l > 0 ==> ({
            let ratio = deposit_ratio(l as int, lp_amount as int);
            let dx = deposit_amount(x as int, l as int, lp_amount as int);
            let dy = deposit_amount(y as int, l as int, lp_amount as int);
            if (x as int) * ratio > u128::MAX as int || dx > u64::MAX as int || (y as int) * ratio
                > u128::MAX as int || dy > u64::MAX as int {
                r matches Err(CurveError::Overflow)
            } else {
                r matches Ok(p) && p.0 == dx && p.1 == dy
            }
        }),
{
    if l == 0 {
        return Err(CurveError::ZeroBalance);
    }
    proof {
        lemma_mul_inequality(
            (l as int) + (lp_amount as int),
            0x2_0000_0000_0000_0000,
            PRECISION as int,
        );
    }
    let ratio: u128 = ((l as u128) + (lp_amount as u128)) * (PRECISION as u128) / (l as u128);
    proof {
        lemma_mul_inequality(l as int, (l as int) + (lp_amount as int), PRECISION as int);
        lemma_div_is_ordered(
            (l as int) * (PRECISION as int),
            ((l as int) + (lp_amount as int)) * (PRECISION as int),
            l as int,
        );
        lemma_div_multiples_vanish(PRECISION as int, l as int);
    }
    assert(ratio >= PRECISION);
    let scaled_x: u128 = match (x as u128).checked_mul(ratio) {
        Some(v) => v,
        None => {
            return Err(CurveError::Overflow);
        },
    };
    let grown_x: u128 = scaled_x / (PRECISION as u128);
    proof {
        lemma_mul_inequality(PRECISION as int, ratio as int, x as int);
        lemma_mul_is_commutative(x as int, PRECISION as int);
        lemma_mul_is_commutative(x as int, ratio as int);
        lemma_div_is_ordered(
            (x as int) * (PRECISION as int),
            (x as int) * (ratio as int),
            PRECISION as int,
        );
        lemma_div_multiples_vanish(x as int, PRECISION as int);
        lemma_mul_is_commutative(PRECISION as int, x as int);
    }
    assert(grown_x >= x);
    let wide_x: u128 = grown_x - (x as u128);
    if wide_x > (u64::MAX as u128) {
        return Err(CurveError::Overflow);
    }
    let scaled_y: u128 = match (y as u128).checked_mul(ratio) {
        Some(v) => v,
        None => {
            return Err(CurveError::Overflow);
        },
    };
    let grown_y: u128 = scaled_y / (PRECISION as u128);
    proof {
        lemma_mul_inequality(PRECISION as int, ratio as int, y as int);
        lemma_mul_is_commutative(y as int, PRECISION as int);
        lemma_mul_is_commutative(y as int, ratio as int);
        lemma_div_is_ordered(
            (y as int) * (PRECISION as int),
            (y as int) * (ratio as int),
            PRECISION as int,
        );
        lemma_div_multiples_vanish(y as int, PRECISION as int);
        lemma_mul_is_commutative(PRECISION as int, y as int);
    }
    assert(grown_y >= y);
    let wide_y: u128 = grown_y - (y as u128);
    if wide_y > (u64::MAX as u128) {
        return Err(CurveError::Overflow);
    }
    Ok((wide_x as u64, wide_y as u64))
}

/// Amounts of X and Y paid out when burning `lp_amount` of `l` shares:
/// each reserve keeps its share under the rounded-down remaining ratio
/// and pays out the rest.
pub fn xy_withdraw_amounts(x: u64, y: u64, l: u64, lp_amount: u64) -> (r: Result<
    (u64, u64),
    CurveError,
>)
    ensures
        l == 0 || lp_amount > l ==> r matches Err(CurveError::ZeroBalance),
        l > 0 && lp_amount <= l ==> (r matches Ok(p) && p.0 == withdraw_amount(
            x as int,
            l as int,
            lp_amount as int,
        ) && p.1 == withdraw_amount(y as int, l as int, lp_amount as int) && p.0 <= x && p.1 <= y),
{
    if l == 0 || lp_amount > l {
        return Err(CurveError::ZeroBalance);
    }
    let remaining: u64 = l - lp_amount;
    proof {
        lemma_mul_upper_bound(remaining as int, u64::MAX as int, PRECISION as int, PRECISION as int);
    }
    let ratio: u128 = (remaining as u128) * (PRECISION as u128) / (l as u128);
    proof {
        lemma_mul_inequality(remaining as int, l as int, PRECISION as int);
        lemma_div_is_ordered(
            (remaining as int) * (PRECISION as int),
            (l as int) * (PRECISION as int),
            l as int,
        );
        lemma_div_multiples_vanish(PRECISION as int, l as int);
    }
    assert(ratio <= PRECISION);
    proof {
        lemma_mul_upper_bound(x as int, u64::MAX as int, ratio as int, PRECISION as int);
    }
    let kept_x: u128 = (x as u128) * ratio / (PRECISION as u128);
    proof {
        lemma_mul_inequality(ratio as int, PRECISION as int, x as int);
        lemma_mul_is_commutative(x as int, ratio as int);
        lemma_mul_is_commutative(x as int, PRECISION as int);
        lemma_div_is_ordered(
            (x as int) * (ratio as int),
            (x as int) * (PRECISION as int),
            PRECISION as int,
        );
        lemma_div_multiples_vanish(x as int, PRECISION as int);
        lemma_mul_is_commutative(PRECISION as int, x as int);
    }
    assert(kept_x <= x);
    let withdraw_x: u64 = x - (kept_x as u64);
    proof {
        lemma_mul_upper_bound(y as int, u64::MAX as int, ratio as int, PRECISION as int);
    }
    let kept_y: u128 = (y as u128) * ratio / (PRECISION as u128);
    proof {
        lemma_mul_inequality(ratio as int, PRECISION as int, y as int);
        lemma_mul_is_commutative(y as int, ratio as int);
        lemma_mul_is_commutative(y as int, PRECISION as int);
        lemma_div_is_ordered(
            (y as int) * (ratio as int),
            (y as int) * (PRECISION as int),
            PRECISION as int,
        );
        lemma_div_multiples_vanish(y as int, PRECISION as int);
        lemma_mul_is_commutative(PRECISION as int, y as int);
    }
    assert(kept_y <= y);
    let withdraw_y: u64 = y - (kept_y as u64);
    Ok((withdraw_x, withdraw_y))
}

/// Shares to mint for the first deposit, when the supply is zero: the
/// larger of the two deposited amounts.
pub fn lp_tokens_for_initial_deposit(x: u64, y: u64) -> (r: Result<u64, CurveError>)
    ensures
        x == 0 || y == 0 ==> r matches Err(CurveError::ZeroBalance),
        x > 0 && y > 0 ==> (r matches Ok(v) && v == initial_shares(x as int, y as int)),
{
    if x == 0 || y == 0 {
        return Err(CurveError::ZeroBalance);
    }
    if x >= y {
        Ok(x)
    } else {
        Ok(y)
    }
}

/// The swap output never shrinks as the input grows: with the same
/// reserves and fee, a larger `amount_in` pays out at least as much.
/// (Truncating division makes the growth non-strict: two inputs that
/// round to the same fee-reduced amount pay out the same.)
pub proof fn lemma_swap_output_monotone(x: int, y: int, a1: int, a2: int, f: int)
    requires
        1 <= x,
        1 <= y,
        0 <= a1 <= a2,
        0 <= f < 10000,
    ensures
        swap_output(x, y, a1, f) <= swap_output(x, y, a2, f),
{
    let af1 = amount_after_fee(a1, f);
    let af2 = amount_after_fee(a2, f);
    lemma_mul_inequality(a1, a2, 10000 - f);
    lemma_mul_is_commutative(a1, 10000 - f);
    lemma_mul_is_commutative(a2, 10000 - f);
    lemma_div_is_ordered(a1 * (10000 - f), a2 * (10000 - f), 10000);
    lemma_mul_nonnegative(a1, 10000 - f);
    lemma_div_pos_is_pos(a1 * (10000 - f), 10000);
    lemma_mul_strictly_positive(x, y);
    lemma_div_is_ordered_by_denominator(x * y, x + af1, x + af2);
}

/// The swap output never exceeds the out-side reserve; and whenever the
/// fee-reduced input is no more than `x * (y - 1)`, it stays strictly
/// below that reserve, so one bounded swap cannot drain the pool.
pub proof fn lemma_swap_output_bounds(x: int, y: int, a: int, f: int)
    requires
        1 <= x,
        1 <= y,
        0 <= a,
        0 <= f < 10000,
    ensures
        0 <= swap_output(x, y, a, f) <= y,
        amount_after_fee(a, f) <= x * (y - 1) ==> swap_output(x, y, a, f) < y,
{
    let af = amount_after_fee(a, f);
    lemma_mul_nonnegative(a, 10000 - f);
    lemma_div_pos_is_pos(a * (10000 - f), 10000);
    lemma_mul_strictly_positive(x, y);
    lemma_div_pos_is_pos(x * y, x + af);
    lemma_div_is_ordered_by_denominator(x * y, x, x + af);
    lemma_div_multiples_vanish(y, x);
    if af <= x * (y - 1) {
        lemma_mul_is_distributive_sub(x, y, 1);
        lemma_div_is_ordered_by_denominator(x * y, x + af, x * y);
        lemma_div_by_self(x * y);
    }
}

/// Round-trip bound: swap `a` of X for Y, then swap the whole payout
/// back with the same fee on the resulting reserves. Whenever the first
/// swap does not shrink the invariant product (the precondition below),
/// the second swap returns at most the original `a`: the round trip
/// cannot profit.
pub proof fn lemma_swap_round_trip(x: int, y: int, a: int, f: int)
    requires
        1 <= x,
        1 <= y,
        0 <= a,
        0 <= f < 10000,
        x * y <= (x + a) * swap_new_out_reserve(x, y, a, f),
    ensures
        swap_output(swap_new_out_reserve(x, y, a, f), x + a, swap_output(x, y, a, f), f) <= a,
{
    let af1 = amount_after_fee(a, f);
    let y2 = swap_new_out_reserve(x, y, a, f);
    let out1 = swap_output(x, y, a, f);
    let af2 = amount_after_fee(out1, f);
    lemma_mul_nonnegative(a, 10000 - f);
    lemma_div_pos_is_pos(a * (10000 - f), 10000);
    lemma_mul_strictly_positive(x, y);
    lemma_div_pos_is_pos(x * y, x + af1);
    assert(y2 >= 1) by {
        if y2 == 0 {
            lemma_mul_by_zero_is_zero(x + a);
            assert((x + a) * y2 == 0);
        }
    };
    lemma_div_is_ordered_by_denominator(x * y, x, x + af1);
    lemma_div_multiples_vanish(y, x);
    assert(y2 <= y);
    lemma_mul_nonnegative(out1, 10000 - f);
    lemma_div_pos_is_pos(out1 * (10000 - f), 10000);
    lemma_mul_inequality(10000 - f, 10000, out1);
    lemma_mul_is_commutative(out1, 10000 - f);
    lemma_mul_is_commutative(out1, 10000);
    lemma_div_is_ordered(out1 * (10000 - f), 10000 * out1, 10000);
    lemma_div_multiples_vanish(out1, 10000);
    assert(af2 <= out1);
    lemma_mul_left_inequality(x, af2, y - y2);
    lemma_mul_is_distributive_sub(x, y, y2);
    lemma_mul_is_distributive_add_other_way(y2, x, a);
    assert(x * af2 <= a * y2);
    lemma_mul_is_distributive_add(x, y2, af2);
    let den = y2 + af2;
    assert(x * den <= (x + a) * y2);
    lemma_mul_is_commutative(y2, x + a);
    lemma_div_is_ordered(x * den, y2 * (x + a), den);
    lemma_mul_is_commutative(x, den);
    lemma_div_multiples_vanish(x, den);
    assert((y2 * (x + a)) / den >= x);
}

/// Depositing against one reserve and immediately withdrawing the same
/// share count pays back at most the deposit, whenever the rounded-down
/// remain-ratio applied to the post-deposit reserve still covers the
/// original reserve (the precondition below): rounding then favors the
/// pool, never the caller.
pub proof fn lemma_deposit_withdraw_round_trip_one(reserve: int, l: int, s: int)
    requires
        1 <= l,
        0 <= s,
        0 <= reserve,
        reserve * (PRECISION as int) <= (reserve + deposit_amount(reserve, l, s)) * withdraw_ratio(
            l + s,
            s,
        ),
    ensures
        withdraw_amount(reserve + deposit_amount(reserve, l, s), l + s, s) <= deposit_amount(
            reserve,
            l,
            s,
        ),
{
    let d = deposit_amount(reserve, l, s);
    let grown = reserve + d;
    let wr = withdraw_ratio(l + s, s);
    lemma_div_by_multiple(reserve, PRECISION as int);
    lemma_div_is_ordered(reserve * (PRECISION as int), grown * wr, PRECISION as int);
}

/// Both-reserve form of the deposit/withdraw round trip: under the same
/// per-reserve cover conditions, neither payout exceeds its deposit.
pub proof fn lemma_deposit_withdraw_round_trip(x: int, y: int, l: int, s: int)
    requires
        1 <= l,
        0 <= s,
        0 <= x,
        0 <= y,
        x * (PRECISION as int) <= (x + deposit_amount(x, l, s)) * withdraw_ratio(l + s, s),
        y * (PRECISION as int) <= (y + deposit_amount(y, l, s)) * withdraw_ratio(l + s, s),
    ensures
        withdraw_amount(x + deposit_amount(x, l, s), l + s, s) <= deposit_amount(x, l, s),
        withdraw_amount(y + deposit_amount(y, l, s), l + s, s) <= deposit_amount(y, l, s),
{
    lemma_deposit_withdraw_round_trip_one(x, l, s);
    lemma_deposit_withdraw_round_trip_one(y, l, s);
}

} // verus!
