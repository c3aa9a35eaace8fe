//! The fee engine: pure computations of the withdrawal fee, the
//! early-withdrawal penalty and the net payout. Nothing here mutates
//! state; the ledger calls these when it books a withdrawal.

use vstd::prelude::*;

verus! {

use vstd::arithmetic::div_mod::{lemma_div_by_self, lemma_div_is_ordered};
use crate::errors::Error;
use crate::math::{bp_mul_div, bp_portion, bp_product_fits};

/// The fee owed on withdrawing `amount` at `fee_bp` basis points.
pub open spec fn fee_value(amount: i128, fee_bp: u32) -> int {
    bp_portion(amount as int, fee_bp as int)
}

/// The penalty owed on withdrawing `amount` at `penalty_bp` basis points:
/// a basis-point portion while the account is still locked, zero from the
/// moment the lock expires.
pub open spec fn penalty_value(amount: i128, penalty_bp: u32, now: u64, locked_until: u64) -> int {
    if now < locked_until {
        bp_portion(amount as int, penalty_bp as int)
    } else {
        0
    }
}

/// The fee on withdrawing `amount` at `withdrawal_fee_bp` basis points:
/// `amount * withdrawal_fee_bp / 10000`, truncated toward zero. Fails with
/// `ArithmeticOverflow` exactly when the product `amount *
/// withdrawal_fee_bp` leaves the signed 128-bit range.
pub fn withdrawal_fee(amount: i128, withdrawal_fee_bp: u32) -> (r: Result<i128, Error>)
    ensures
        r is Ok <==> bp_product_fits(amount as int, withdrawal_fee_bp as int),
        r matches Ok(fee) ==> fee == fee_value(amount, withdrawal_fee_bp),
        r matches Err(e) ==> e == Error::ArithmeticOverflow,
{
    match bp_mul_div(amount, withdrawal_fee_bp) {
        Some(fee) => Ok(fee),
        None => Err(Error::ArithmeticOverflow),
    }
}

/// The penalty on withdrawing `amount` at `penalty_bp` basis points while
/// the account is still locked: `amount * penalty_bp / 10000` when `now <
/// locked_until`, and zero from the moment the lock expires. Fails with
/// `ArithmeticOverflow` exactly when the lock is still active and the
/// product `amount * penalty_bp` leaves the signed 128-bit range.
pub fn early_withdrawal_penalty(amount: i128, penalty_bp: u32, now: u64, locked_until: u64) -> (r:
    Result<i128, Error>)
    ensures
        r is Ok <==> (now >= locked_until || bp_product_fits(amount as int, penalty_bp as int)),
        r matches Ok(p) ==> p == penalty_value(amount, penalty_bp, now, locked_until),
        r matches Err(e) ==> e == Error::ArithmeticOverflow,
{
    if now < locked_until {
        match bp_mul_div(amount, penalty_bp) {
            Some(penalty) => Ok(penalty),
            None => Err(Error::ArithmeticOverflow),
        }
    } else {
        Ok(0)
    }
}

/// The penalty is deterministic in the clock: before the lock expires it
/// is exactly the basis-point portion of the amount, and strictly
/// positive whenever the rate is positive and the amount large enough
/// that the portion does not truncate to zero (`amount * penalty_bp >=
/// 10000`); from the moment the lock expires it is zero, whatever the
/// amount and rate.
pub proof fn lemma_penalty_determinism(amount: i128, penalty_bp: u32, now: u64, locked_until: u64)
    ensures
        now >= locked_until ==> penalty_value(amount, penalty_bp, now, locked_until) == 0,
        now < locked_until ==> penalty_value(amount, penalty_bp, now, locked_until) == bp_portion(
            amount as int,
            penalty_bp as int,
        ),
        now < locked_until && penalty_bp > 0 && amount * penalty_bp >= 10000 ==> penalty_value(
            amount,
            penalty_bp,
            now,
            locked_until,
        ) > 0,
{
    if now < locked_until && penalty_bp > 0 && amount * penalty_bp >= 10000 {
        lemma_div_is_ordered(10000, (amount as int) * (penalty_bp as int), 10000);
        lemma_div_by_self(10000);
    }
}

/// The net payout of a withdrawal: `amount - fee - penalty`. Fails with
/// `ArithmeticOverflow` exactly when a step of the subtraction leaves the
/// signed 128-bit range; for a fee and penalty actually produced by this
/// engine under a valid configuration it never does.
pub fn net_amount(amount: i128, fee: i128, penalty: i128) -> (r: Result<i128, Error>)
    ensures
        r is Ok <==> (i128::MIN <= amount - fee <= i128::MAX && i128::MIN <= amount - fee - penalty
            <= i128::MAX),
        r matches Ok(net) ==> net == amount - fee - penalty,
        r matches Err(e) ==> e == Error::ArithmeticOverflow,
{
    match amount.checked_sub(fee) {
        Some(partial) => match partial.checked_sub(penalty) {
            Some(net) => Ok(net),
            None => Err(Error::ArithmeticOverflow),
        },
        None => Err(Error::ArithmeticOverflow),
    }
}

} // verus!
