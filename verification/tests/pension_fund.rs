use pension_fund_core::errors::Error;
use pension_fund_core::fund::{PensionFundContract, RiskProfile};

fn standard_fund() -> PensionFundContract {
    PensionFundContract::initialize(
        1,          // admin
        2,          // kale_token
        1000000,    // min_deposit: 1 KALE
        10000000000, // max_deposit: 10,000 KALE
        2592000,    // lock_period: 30 days
        100,        // withdrawal_fee: 1%
        200,        // performance_fee: 2%
        500,        // early_withdrawal_penalty: 5%
        50,         // referral_bonus: 0.5%
    )
}

#[test]
fn test_initialize_contract() {
    let fund = standard_fund();

    let config = fund.get_config();
    assert_eq!(config.kale_token, 2);
    assert_eq!(config.min_deposit, 1000000);
    assert_eq!(config.lock_period, 2592000);
}

#[test]
fn test_deposit_success() {
    let mut fund = standard_fund();
    let user = 10;

    let deposit_amount = 5000000; // 5 KALE
    let result = fund
        .deposit(user, deposit_amount, RiskProfile::Moderate, None, 0)
        .unwrap();

    assert_eq!(result.amount, deposit_amount);
    assert_eq!(result.new_balance, deposit_amount);
    assert_eq!(result.referral_bonus, 0);

    let account = fund.get_account(user);
    assert_eq!(account.balance, deposit_amount);
    assert_eq!(account.total_deposits, deposit_amount);
}

#[test]
fn test_deposit_with_referral() {
    let mut fund = standard_fund();
    let user = 10;
    let referrer = 11;

    let deposit_amount = 10000000; // 10 KALE
    let expected_bonus = (deposit_amount * 50) / 10000; // 0.5%

    let result = fund
        .deposit(user, deposit_amount, RiskProfile::Aggressive, Some(referrer), 0)
        .unwrap();

    assert_eq!(result.referral_bonus, expected_bonus);
}

#[test]
fn test_deposit_below_minimum() {
    let mut fund = standard_fund();
    let user = 10;

    // Try to deposit below minimum: 0.5 KALE
    let result = fund.deposit(user, 500000, RiskProfile::Conservative, None, 0);
    assert_eq!(result, Err(Error::InvalidAmount));
}

#[test]
fn test_withdraw_success() {
    let mut fund = standard_fund();
    let user = 10;

    // First deposit
    let deposit_amount = 10000000; // 10 KALE
    fund.deposit(user, deposit_amount, RiskProfile::Moderate, None, 0)
        .unwrap();

    // Withdraw after the lock period (no penalty): 30 days + 1 second
    let withdraw_amount = 5000000; // 5 KALE
    let expected_fee = (withdraw_amount * 100) / 10000; // 1%
    let expected_net = withdraw_amount - expected_fee;

    let result = fund.withdraw(user, withdraw_amount, 2592001).unwrap();

    assert_eq!(result.amount, withdraw_amount);
    assert_eq!(result.fee, expected_fee);
    assert_eq!(result.penalty, 0); // No penalty after lock period
    assert_eq!(result.net_amount, expected_net);
    assert_eq!(result.new_balance, deposit_amount - withdraw_amount);
}

#[test]
fn test_early_withdrawal_penalty() {
    let mut fund = standard_fund();
    let user = 10;

    // Deposit
    let deposit_amount = 10000000; // 10 KALE
    fund.deposit(user, deposit_amount, RiskProfile::Moderate, None, 0)
        .unwrap();

    // Withdraw immediately (early withdrawal)
    let withdraw_amount = 5000000; // 5 KALE
    let expected_fee = (withdraw_amount * 100) / 10000; // 1%
    let expected_penalty = (withdraw_amount * 500) / 10000; // 5%
    let expected_net = withdraw_amount - expected_fee - expected_penalty;

    let result = fund.withdraw(user, withdraw_amount, 0).unwrap();

    assert_eq!(result.fee, expected_fee);
    assert_eq!(result.penalty, expected_penalty);
    assert_eq!(result.net_amount, expected_net);
}

#[test]
fn test_withdraw_insufficient_balance() {
    let mut fund = standard_fund();
    let user = 10;

    // Try to withdraw without a deposit
    let result = fund.withdraw(user, 1000000, 0);
    assert_eq!(result, Err(Error::InsufficientBalance));
}

#[test]
fn test_update_config() {
    let mut fund = standard_fund();

    fund.update_config(
        1,                  // admin
        Some(2000000),      // new min_deposit
        Some(20000000000),  // new max_deposit
        Some(150),          // new withdrawal_fee
        None,               // keep performance_fee
        Some(600),          // new early_withdrawal_penalty
    )
    .unwrap();

    let updated_config = fund.get_config();
    assert_eq!(updated_config.min_deposit, 2000000);
    assert_eq!(updated_config.max_deposit, 20000000000);
    assert_eq!(updated_config.withdrawal_fee, 150);
    assert_eq!(updated_config.performance_fee, 200); // unchanged
    assert_eq!(updated_config.early_withdrawal_penalty, 600);
}

#[test]
fn test_update_config_unauthorized() {
    let mut fund = standard_fund();
    let unauthorized_user = 99;

    let result = fund.update_config(unauthorized_user, Some(2000000), None, None, None, None);
    assert_eq!(result, Err(Error::Unauthorized));
}

#[test]
fn test_total_locked_tracking() {
    let mut fund = standard_fund();
    let user1 = 10;
    let user2 = 11;

    // Initial total should be 0
    assert_eq!(fund.get_total_locked(), 0);

    // User1 deposits 5 KALE
    let deposit1 = 5000000;
    fund.deposit(user1, deposit1, RiskProfile::Conservative, None, 0)
        .unwrap();
    assert_eq!(fund.get_total_locked(), deposit1);

    // User2 deposits 8 KALE
    let deposit2 = 8000000;
    fund.deposit(user2, deposit2, RiskProfile::Aggressive, None, 0)
        .unwrap();
    assert_eq!(fund.get_total_locked(), deposit1 + deposit2);

    // User1 withdraws 2 KALE
    let withdraw1 = 2000000;
    fund.withdraw(user1, withdraw1, 0).unwrap();
    assert_eq!(fund.get_total_locked(), deposit1 + deposit2 - withdraw1);
}

#[test]
fn test_deposit_above_maximum() {
    let mut fund = standard_fund();

    let result = fund.deposit(10, 10000000001, RiskProfile::Moderate, None, 0);
    assert_eq!(result, Err(Error::InvalidAmount));
}

#[test]
fn test_get_account_unknown_identity_is_zero_default() {
    let fund = standard_fund();

    let account = fund.get_account(12345);
    assert_eq!(account.balance, 0);
    assert_eq!(account.locked_until, 0);
    assert_eq!(account.last_deposit, 0);
    assert_eq!(account.total_deposits, 0);
    assert_eq!(account.total_withdrawals, 0);
    assert_eq!(account.rewards_earned, 0);
    assert_eq!(account.risk_profile, RiskProfile::Conservative);
}

#[test]
fn test_accounting_identity_after_mixed_history() {
    let mut fund = standard_fund();
    let user = 10;

    fund.deposit(user, 7000000, RiskProfile::Moderate, None, 0).unwrap();
    fund.withdraw(user, 3000000, 100).unwrap();
    fund.deposit(user, 2000000, RiskProfile::Moderate, None, 200).unwrap();

    let account = fund.get_account(user);
    assert_eq!(account.total_deposits, 9000000);
    assert_eq!(account.total_withdrawals, 3000000);
    assert_eq!(
        account.balance,
        account.total_deposits - account.total_withdrawals
    );
    assert_eq!(fund.get_total_locked(), account.balance);
}

#[test]
fn test_deposit_lock_timestamp_overflow() {
    let mut fund = standard_fund();

    // The lock expiry now + lock_period no longer fits a 64-bit timestamp.
    let result = fund.deposit(10, 5000000, RiskProfile::Moderate, None, u64::MAX);
    assert_eq!(result, Err(Error::ArithmeticOverflow));
}

#[test]
fn test_deposit_referral_bonus_overflow() {
    let mut fund = PensionFundContract::initialize(1, 2, 1, i128::MAX, 2592000, 100, 200, 500, 50);

    // amount * referral_bonus_bp leaves the signed 128-bit range
    let huge = i128::MAX / 10;
    let result = fund.deposit(10, huge, RiskProfile::Moderate, Some(11), 0);
    assert_eq!(result, Err(Error::ArithmeticOverflow));
}

#[test]
fn test_distribute_rewards_admin_gate() {
    let mut fund = standard_fund();
    fund.deposit(10, 5000000, RiskProfile::Moderate, None, 0).unwrap();

    assert_eq!(fund.distribute_rewards(99, 1000), Err(Error::Unauthorized));
    assert_eq!(fund.distribute_rewards(1, 1000), Ok(()));
    // Reward distribution is a placeholder: nothing is booked.
    assert_eq!(fund.get_account(10).rewards_earned, 0);
    assert_eq!(fund.get_total_locked(), 5000000);
}

#[test]
fn test_lock_cycle_scenario() {
    // initialize, deposit at t=0, withdraw half early, withdraw the rest
    // after the lock expires
    let mut fund = standard_fund();
    let user = 10;

    fund.deposit(user, 10_000_000, RiskProfile::Moderate, None, 0).unwrap();

    let early = fund.withdraw(user, 5_000_000, 0).unwrap();
    assert_eq!(early.fee, 50_000);
    assert_eq!(early.penalty, 250_000);
    assert_eq!(early.net_amount, 4_700_000);
    assert_eq!(early.new_balance, 5_000_000);

    let late = fund.withdraw(user, 5_000_000, 2_592_001).unwrap();
    assert_eq!(late.penalty, 0);
    assert_eq!(late.new_balance, 0);
}
