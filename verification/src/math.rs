//! Basis-point fixed-point arithmetic shared by the ledger, the fee engine
//! and the portfolio components.
//!
//! All percentages in the protocol are expressed in basis points
//! (10000 bp = 100%), and every fee, penalty, bonus or target value is a
//! product `amount * bp / 10000` computed in 128-bit integer arithmetic
//! with the quotient rounded toward zero, exactly as machine division
//! computes it.

use vstd::prelude::*;

verus! {

use vstd::arithmetic::div_mod::{
    lemma_div_is_ordered,
    lemma_div_multiples_vanish,
    lemma_div_nonincreasing,
    lemma_div_pos_is_pos,
    lemma_fundamental_div_mod,
};
use vstd::arithmetic::mul::{
    lemma_mul_is_distributive_add,
    lemma_mul_left_inequality,
    lemma_mul_nonnegative,
};

/// Mathematical value of `amount * bp / 10000` with the quotient rounded
/// toward zero, as 128-bit machine division computes it.
pub open spec fn bp_portion(amount: int, bp: int) -> int {
    let p = amount * bp;
    if p >= 0 {
        p / 10000
    } else {
        -((-p) / 10000)
    }
}

/// Whether the product `amount * bp` stays inside the signed 128-bit
/// range; outside it the protocol reports an overflow instead of wrapping.
pub open spec fn bp_product_fits(amount: int, bp: int) -> bool {
    i128::MIN <= amount * bp <= i128::MAX
}

/// Quotient of `x / d` with the result rounded toward zero, as machine
/// division of signed integers computes it; meaningful for `d != 0`.
pub open spec fn trunc_div(x: int, d: int) -> int {
    if x == 0 {
        0
    } else if x > 0 && d > 0 {
        x / d
    } else if x < 0 && d < 0 {
        (-x) / (-d)
    } else if x < 0 {
        -((-x) / d)
    } else {
        -(x / (-d))
    }
}

/// `amount * bp / 10000`, or `None` when the product `amount * bp` leaves
/// the signed 128-bit range.
pub fn bp_mul_div(amount: i128, bp: u32) -> (r: Option<i128>)
    ensures
        r is Some <==> bp_product_fits(amount as int, bp as int),
        r is Some ==> r->0 == bp_portion(amount as int, bp as int),
{
    match amount.checked_mul(bp as i128) {
        None => None,
        Some(p) => {
            proof {
                if p >= 0 {
                    lemma_div_pos_is_pos(p as int, 10000);
                    lemma_div_nonincreasing(p as int, 10000);
                } else {
                    lemma_div_pos_is_pos(-(p as int), 10000);
                    lemma_div_nonincreasing(-(p as int), 10000);
                }
            }
            match p.checked_div(10000) {
                None => None,
                Some(q) => Some(q),
            }
        },
    }
}

/// A basis-point portion of a nonnegative amount lies between zero and the
/// amount itself; of a negative amount, between the amount and zero.
pub proof fn lemma_bp_portion_bounds(amount: int, bp: int)
    requires
        0 <= bp <= 10000,
    ensures
        amount >= 0 ==> 0 <= bp_portion(amount, bp) <= amount,
        amount < 0 ==> amount <= bp_portion(amount, bp) <= 0,
{
    if amount >= 0 {
        lemma_bp_portion_bounds_nonneg(amount, bp);
    } else {
        lemma_bp_portion_negate(amount, bp);
        lemma_bp_portion_bounds_nonneg(-amount, bp);
    }
}

/// Rounding toward zero commutes with negating the amount.
pub proof fn lemma_bp_portion_negate(amount: int, bp: int)
    requires
        0 <= bp,
    ensures
        bp_portion(-amount, bp) == -bp_portion(amount, bp),
{
    assert((-amount) * bp == -(amount * bp)) by (nonlinear_arith);
    if amount * bp == 0 {
        assert(bp_portion(amount, bp) == 0);
        assert(bp_portion(-amount, bp) == 0);
    }
}

proof fn lemma_bp_portion_bounds_nonneg(amount: int, bp: int)
    requires
        amount >= 0,
        0 <= bp <= 10000,
    ensures
        0 <= bp_portion(amount, bp) <= amount,
{
    lemma_mul_nonnegative(amount, bp);
    lemma_div_pos_is_pos(amount * bp, 10000);
    if amount > 0 {
        lemma_mul_left_inequality(amount, bp, 10000);
        lemma_div_is_ordered(amount * bp, amount * 10000, 10000);
        lemma_div_multiples_vanish(amount, 10000);
        assert(amount * 10000 == 10000 * amount) by (nonlinear_arith);
    } else {
        assert(amount * bp == 0) by (nonlinear_arith)
            requires amount == 0;
        lemma_div_nonincreasing(0, 10000);
    }
}

/// Two portions of one nonnegative amount, at rates that together stay at
/// or below 10000 bp, together stay at or below the amount; for a negative
/// amount the mirrored bound holds. This is what keeps a net payout
/// (amount minus fee minus penalty) from changing sign.
pub proof fn lemma_bp_portion_pair_bound(amount: int, bp1: int, bp2: int)
    requires
        0 <= bp1,
        0 <= bp2,
        bp1 + bp2 <= 10000,
    ensures
        amount >= 0 ==> 0 <= bp_portion(amount, bp1) + bp_portion(amount, bp2) <= amount,
        amount < 0 ==> amount <= bp_portion(amount, bp1) + bp_portion(amount, bp2) <= 0,
{
    if amount >= 0 {
        lemma_bp_portion_pair_bound_nonneg(amount, bp1, bp2);
    } else {
        lemma_bp_portion_negate(amount, bp1);
        lemma_bp_portion_negate(amount, bp2);
        lemma_bp_portion_pair_bound_nonneg(-amount, bp1, bp2);
    }
}

proof fn lemma_bp_portion_pair_bound_nonneg(amount: int, bp1: int, bp2: int)
    requires
        amount >= 0,
        0 <= bp1,
        0 <= bp2,
        bp1 + bp2 <= 10000,
    ensures
        0 <= bp_portion(amount, bp1) + bp_portion(amount, bp2) <= amount,
{
    let x = amount * bp1;
    let y = amount * bp2;
    lemma_mul_nonnegative(amount, bp1);
    lemma_mul_nonnegative(amount, bp2);
    lemma_bp_portion_bounds_nonneg(amount, bp1);
    lemma_bp_portion_bounds_nonneg(amount, bp2);
    // x / 10000 + y / 10000 <= (x + y) / 10000 for nonnegative x, y
    lemma_fundamental_div_mod(x, 10000);
    lemma_fundamental_div_mod(y, 10000);
    lemma_div_multiples_vanish(x / 10000 + y / 10000, 10000);
    lemma_div_is_ordered(10000 * (x / 10000 + y / 10000), x + y, 10000);
    // (x + y) / 10000 == amount * (bp1 + bp2) / 10000 <= amount
    lemma_mul_is_distributive_add(amount, bp1, bp2);
    if amount > 0 {
        lemma_mul_left_inequality(amount, bp1 + bp2, 10000);
        lemma_div_is_ordered(x + y, amount * 10000, 10000);
        lemma_div_multiples_vanish(amount, 10000);
        assert(amount * 10000 == 10000 * amount) by (nonlinear_arith);
    } else {
        assert(amount * bp1 == 0 && amount * bp2 == 0) by (nonlinear_arith)
            requires amount == 0;
        lemma_div_nonincreasing(0, 10000);
    }
}

} // verus!
