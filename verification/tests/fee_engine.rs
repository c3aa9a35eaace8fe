use pension_fund_core::errors::Error;
use pension_fund_core::fees::{early_withdrawal_penalty, net_amount, withdrawal_fee};

#[test]
fn test_withdrawal_fee_exact() {
    assert_eq!(withdrawal_fee(5000000, 100), Ok(50000));
    assert_eq!(withdrawal_fee(10000000, 150), Ok(150000));
    assert_eq!(withdrawal_fee(0, 100), Ok(0));
    // Integer division truncates toward zero
    assert_eq!(withdrawal_fee(99, 100), Ok(0));
}

#[test]
fn test_withdrawal_fee_overflow() {
    assert_eq!(withdrawal_fee(i128::MAX, 2), Err(Error::ArithmeticOverflow));
}

#[test]
fn test_early_withdrawal_penalty_before_and_after_lock() {
    // Locked until 2592000: a withdrawal at 0 pays the penalty
    assert_eq!(early_withdrawal_penalty(5000000, 500, 0, 2592000), Ok(250000));
    // At the expiry instant and after it, no penalty
    assert_eq!(early_withdrawal_penalty(5000000, 500, 2592000, 2592000), Ok(0));
    assert_eq!(early_withdrawal_penalty(5000000, 500, 2592001, 2592000), Ok(0));
    // A zero rate never penalizes
    assert_eq!(early_withdrawal_penalty(5000000, 0, 0, 2592000), Ok(0));
}

#[test]
fn test_early_withdrawal_penalty_overflow_only_while_locked() {
    assert_eq!(
        early_withdrawal_penalty(i128::MAX, 2, 0, 10),
        Err(Error::ArithmeticOverflow)
    );
    // After expiry the product is never formed
    assert_eq!(early_withdrawal_penalty(i128::MAX, 2, 10, 10), Ok(0));
}

#[test]
fn test_net_amount() {
    assert_eq!(net_amount(5000000, 50000, 250000), Ok(4700000));
    assert_eq!(net_amount(100, 0, 0), Ok(100));
    assert_eq!(net_amount(i128::MIN, 1, 0), Err(Error::ArithmeticOverflow));
}
