use pension_fund_core::errors::Error;
use pension_fund_core::fund::RiskProfile;
use pension_fund_core::risk::{AssetAllocation, RiskManagerContract, VolatilityData};

fn standard_manager() -> RiskManagerContract {
    RiskManagerContract::initialize(
        1,    // admin
        3000, // max_position_size: 30%
        1000, // max_daily_volatility: 10%
        7000, // correlation_threshold: 70%
        2000, // stress_test_threshold: 20%
        500,  // rebalance_threshold: 5%
    )
}

#[test]
fn test_initialize_risk_manager() {
    let mgr = standard_manager();

    let params = mgr.get_risk_parameters();
    assert_eq!(params.max_position_size, 3000);
    assert_eq!(params.max_daily_volatility, 1000);
    assert_eq!(params.correlation_threshold, 7000);
}

#[test]
fn test_get_allocation_conservative() {
    let mgr = standard_manager();

    let allocation = mgr.get_allocation(RiskProfile::Conservative);

    // Conservative should have higher USDC allocation
    assert!(allocation.usdc_percentage >= 3000); // At least 30%
    assert!(allocation.kale_percentage <= 3000); // At most 30%

    // Total should equal 100%
    let total = allocation.kale_percentage
        + allocation.btc_percentage
        + allocation.usdc_percentage
        + allocation.xlm_percentage;
    assert_eq!(total, 10000);
}

#[test]
fn test_get_allocation_aggressive() {
    let mgr = standard_manager();

    let allocation = mgr.get_allocation(RiskProfile::Aggressive);

    // Aggressive should have higher KALE allocation
    assert!(allocation.kale_percentage >= 4000); // At least 40%
    assert!(allocation.usdc_percentage <= 2000); // At most 20%

    // Total should equal 100%
    let total = allocation.kale_percentage
        + allocation.btc_percentage
        + allocation.usdc_percentage
        + allocation.xlm_percentage;
    assert_eq!(total, 10000);
}

#[test]
fn test_should_rebalance() {
    let mgr = standard_manager();

    // Allocation within the 5% threshold: no rebalancing needed
    let current_allocation = AssetAllocation {
        kale_percentage: 4800, // Close to target of 5000 for aggressive
        btc_percentage: 3600,  // Close to target of 3500
        usdc_percentage: 1100, // Close to target of 1000
        xlm_percentage: 500,   // Exact target
    };

    let should_rebal = mgr.should_rebalance(RiskProfile::Aggressive, current_allocation);
    assert!(!should_rebal);

    // Allocation outside the threshold: rebalancing needed
    let off_allocation = AssetAllocation {
        kale_percentage: 7000, // Way off target
        btc_percentage: 2000,
        usdc_percentage: 500,
        xlm_percentage: 500,
    };

    let should_rebal = mgr.should_rebalance(RiskProfile::Aggressive, off_allocation);
    assert!(should_rebal);
}

#[test]
fn test_update_allocation() {
    let mut mgr = standard_manager();

    // Update conservative allocation
    let new_allocation = AssetAllocation {
        kale_percentage: 1500, // 15%
        btc_percentage: 2500,  // 25%
        usdc_percentage: 5000, // 50%
        xlm_percentage: 1000,  // 10%
    };

    mgr.update_allocation(1, RiskProfile::Conservative, new_allocation)
        .unwrap();

    let updated = mgr.get_allocation(RiskProfile::Conservative);
    assert_eq!(updated.kale_percentage, 1500);
    assert_eq!(updated.usdc_percentage, 5000);
}

#[test]
fn test_update_allocation_invalid_total() {
    let mut mgr = standard_manager();

    // Invalid allocation that doesn't sum to 100%
    let invalid_allocation = AssetAllocation {
        kale_percentage: 5000,
        btc_percentage: 3000,
        usdc_percentage: 1000,
        xlm_percentage: 500, // Total = 9500, not 10000
    };

    let result = mgr.update_allocation(1, RiskProfile::Conservative, invalid_allocation);
    assert_eq!(result, Err(Error::InvalidAllocation));
}

#[test]
fn test_update_allocation_unauthorized() {
    let mut mgr = standard_manager();
    let unauthorized = 99;

    let allocation = AssetAllocation {
        kale_percentage: 2500,
        btc_percentage: 2500,
        usdc_percentage: 2500,
        xlm_percentage: 2500,
    };

    let result = mgr.update_allocation(unauthorized, RiskProfile::Conservative, allocation);
    assert_eq!(result, Err(Error::Unauthorized));
}

#[test]
fn test_update_then_get_allocation_other_profiles_unchanged() {
    let mut mgr = standard_manager();

    let new_allocation = AssetAllocation {
        kale_percentage: 2500,
        btc_percentage: 2500,
        usdc_percentage: 2500,
        xlm_percentage: 2500,
    };
    mgr.update_allocation(1, RiskProfile::Moderate, new_allocation).unwrap();

    assert_eq!(mgr.get_allocation(RiskProfile::Moderate), new_allocation);
    assert_eq!(
        mgr.get_allocation(RiskProfile::Conservative),
        RiskManagerContract::default_allocation_for(RiskProfile::Conservative)
    );
    assert_eq!(
        mgr.get_allocation(RiskProfile::Aggressive),
        RiskManagerContract::default_allocation_for(RiskProfile::Aggressive)
    );
}

#[test]
fn test_assess_risk_without_samples() {
    let mgr = standard_manager();

    // Current allocation exactly on the conservative recommendation
    let current = RiskManagerContract::default_allocation_for(RiskProfile::Conservative);
    let assessment = mgr.assess_risk(RiskProfile::Conservative, current, &Vec::new());

    assert_eq!(assessment.volatility_score, 5000); // neutral without samples
    assert_eq!(assessment.correlation_risk, 3000); // fixed placeholder
    assert_eq!(assessment.liquidity_risk, 4000); // no majority weight
    // (0*30 + 5000*40 + 3000*20 + 4000*10) / 100
    assert_eq!(assessment.risk_score, 3000);
    assert_eq!(assessment.recommended_allocation, current);
}

#[test]
fn test_assess_risk_with_samples() {
    let mgr = standard_manager();

    let current = RiskManagerContract::default_allocation_for(RiskProfile::Conservative);
    let samples = vec![
        VolatilityData {
            asset: 1,
            daily_volatility: 1000,
            weekly_volatility: 2000,
            monthly_volatility: 3000,
            last_updated: 0,
        },
        VolatilityData {
            asset: 2,
            daily_volatility: 3000,
            weekly_volatility: 4000,
            monthly_volatility: 5000,
            last_updated: 0,
        },
    ];
    let assessment = mgr.assess_risk(RiskProfile::Conservative, current, &samples);

    assert_eq!(assessment.volatility_score, 2000); // mean of 1000 and 3000
    // (0*30 + 2000*40 + 3000*20 + 4000*10) / 100
    assert_eq!(assessment.risk_score, 1800);
}

#[test]
fn test_calculate_allocation_risk_mean_deviation() {
    let current = AssetAllocation {
        kale_percentage: 2000,
        btc_percentage: 3000,
        usdc_percentage: 4000,
        xlm_percentage: 1000,
    };
    let recommended = AssetAllocation {
        kale_percentage: 3000,
        btc_percentage: 2000,
        usdc_percentage: 5000,
        xlm_percentage: 0,
    };
    assert_eq!(
        RiskManagerContract::calculate_allocation_risk(&current, &recommended),
        1000
    );
}

#[test]
fn test_calculate_liquidity_risk_tiers() {
    let stable_heavy = AssetAllocation {
        kale_percentage: 1000,
        btc_percentage: 2000,
        usdc_percentage: 6000,
        xlm_percentage: 1000,
    };
    let volatile_heavy = AssetAllocation {
        kale_percentage: 6000,
        btc_percentage: 2000,
        usdc_percentage: 1000,
        xlm_percentage: 1000,
    };
    let balanced = AssetAllocation {
        kale_percentage: 3000,
        btc_percentage: 3000,
        usdc_percentage: 3000,
        xlm_percentage: 1000,
    };
    assert_eq!(RiskManagerContract::calculate_liquidity_risk(&stable_heavy), 1000);
    assert_eq!(RiskManagerContract::calculate_liquidity_risk(&volatile_heavy), 8000);
    assert_eq!(RiskManagerContract::calculate_liquidity_risk(&balanced), 4000);
}

#[test]
fn test_abs_diff_symmetric() {
    assert_eq!(RiskManagerContract::abs_diff(4800, 5000), 200);
    assert_eq!(RiskManagerContract::abs_diff(5000, 4800), 200);
    assert_eq!(RiskManagerContract::abs_diff(700, 700), 0);
}

#[test]
fn test_update_volatility_overwrites_per_asset() {
    let mut mgr = standard_manager();

    let first = VolatilityData {
        asset: 1,
        daily_volatility: 1000,
        weekly_volatility: 1500,
        monthly_volatility: 2000,
        last_updated: 10,
    };
    let second = VolatilityData {
        asset: 2,
        daily_volatility: 3000,
        weekly_volatility: 3500,
        monthly_volatility: 4000,
        last_updated: 10,
    };
    let first_again = VolatilityData {
        asset: 1,
        daily_volatility: 1200,
        weekly_volatility: 1500,
        monthly_volatility: 2000,
        last_updated: 20,
    };

    mgr.update_volatility(1, vec![first, second]).unwrap();
    mgr.update_volatility(1, vec![first_again]).unwrap();

    assert_eq!(mgr.volatility.len(), 2);
    assert!(mgr.volatility.contains(&first_again));
    assert!(mgr.volatility.contains(&second));
    assert!(!mgr.volatility.contains(&first));
}

#[test]
fn test_update_volatility_unauthorized() {
    let mut mgr = standard_manager();

    let data = VolatilityData {
        asset: 1,
        daily_volatility: 1000,
        weekly_volatility: 1500,
        monthly_volatility: 2000,
        last_updated: 10,
    };
    let result = mgr.update_volatility(99, vec![data]);
    assert_eq!(result, Err(Error::Unauthorized));
}

#[test]
fn test_update_risk_parameters_admin_gate() {
    let mut mgr = standard_manager();

    let new_params = pension_fund_core::risk::RiskParameters {
        max_position_size: 4000,
        max_daily_volatility: 1500,
        correlation_threshold: 6000,
        stress_test_threshold: 2500,
        rebalance_threshold: 700,
    };

    assert_eq!(mgr.update_risk_parameters(99, new_params), Err(Error::Unauthorized));
    assert_eq!(mgr.get_risk_parameters().rebalance_threshold, 500);

    mgr.update_risk_parameters(1, new_params).unwrap();
    assert_eq!(mgr.get_risk_parameters(), new_params);
}
