use pension_fund_core::assets::{ASSET_BTC, ASSET_KALE, ASSET_USDC, ASSET_XLM};
use pension_fund_core::errors::Error;
use pension_fund_core::oracle::{OracleConfig, PriceSource, ReflectorAdapterContract};

fn standard_adapter() -> ReflectorAdapterContract {
    ReflectorAdapterContract::initialize(
        1,   // admin
        11,  // reflector_usd_oracle
        12,  // reflector_stellar_oracle
        600, // update_frequency: 10 minutes
        100, // price_deviation_threshold: 1%
        300, // max_price_age: 5 minutes
        14,  // decimals
    )
}

#[test]
fn test_initialize_adapter() {
    let adapter = standard_adapter();

    let config = adapter.get_config();
    assert_eq!(config.reflector_usd_oracle, 11);
    assert_eq!(config.update_frequency, 600);
    assert_eq!(config.max_price_age, 300);
    assert!(adapter.get_price(ASSET_KALE).is_none());
}

#[test]
fn test_update_prices_stores_all_quotes() {
    let mut adapter = standard_adapter();

    let updates = adapter.update_prices(7, 600).unwrap();

    assert_eq!(updates.len(), 4);
    // First refresh: no stored quote, so the movement is zero
    assert_eq!(updates[0].asset, ASSET_KALE);
    assert_eq!(updates[0].old_price, 100000000);
    assert_eq!(updates[0].new_price, 100000000);
    assert_eq!(updates[0].price_change, 0);
    assert_eq!(updates[0].price_change_percent, 0);
    assert_eq!(updates[0].timestamp, 600);
    assert_eq!(updates[1].asset, ASSET_XLM);
    assert_eq!(updates[1].new_price, 11000000);
    assert_eq!(updates[2].asset, ASSET_BTC);
    assert_eq!(updates[2].new_price, 430000000000);
    assert_eq!(updates[3].asset, ASSET_USDC);
    assert_eq!(updates[3].new_price, 10000000);

    let kale_feed = adapter.get_price(ASSET_KALE).unwrap();
    assert_eq!(kale_feed.price_usd, 100000000);
    assert_eq!(kale_feed.timestamp, 600);
    assert_eq!(kale_feed.confidence, 9500);
    assert_eq!(kale_feed.source, PriceSource::Reflector);
}

#[test]
fn test_update_prices_frequency_gate() {
    let mut adapter = standard_adapter();

    adapter.update_prices(7, 600).unwrap();

    let second = adapter.update_prices(7, 1199);
    assert_eq!(second, Err(Error::UpdateTooSoon));

    let third = adapter.update_prices(7, 1200);
    assert!(third.is_ok());
}

#[test]
fn test_update_prices_books_movement_from_override() {
    let mut adapter = standard_adapter();

    // Decree half the reference KALE price, then refresh
    adapter.emergency_price_override(1, ASSET_KALE, 50000000, 77, 0).unwrap();
    let updates = adapter.update_prices(7, 600).unwrap();

    assert_eq!(updates[0].old_price, 50000000);
    assert_eq!(updates[0].new_price, 100000000);
    assert_eq!(updates[0].price_change, 50000000);
    // +100% in basis points
    assert_eq!(updates[0].price_change_percent, 10000);
}

#[test]
fn test_emergency_price_override() {
    let mut adapter = standard_adapter();

    adapter.emergency_price_override(1, ASSET_BTC, 400000000000, 77, 50).unwrap();

    let feed = adapter.get_price(ASSET_BTC).unwrap();
    assert_eq!(feed.price_usd, 400000000000);
    assert_eq!(feed.timestamp, 50);
    assert_eq!(feed.confidence, 5000);
    assert_eq!(feed.source, PriceSource::Emergency);
    // Other assets untouched
    assert!(adapter.get_price(ASSET_KALE).is_none());
}

#[test]
fn test_emergency_price_override_unauthorized() {
    let mut adapter = standard_adapter();

    let result = adapter.emergency_price_override(99, ASSET_BTC, 400000000000, 77, 50);
    assert_eq!(result, Err(Error::Unauthorized));
    assert!(adapter.get_price(ASSET_BTC).is_none());
}

#[test]
fn test_is_price_fresh_window() {
    let mut adapter = standard_adapter();

    // Nothing stored: never fresh
    assert!(!adapter.is_price_fresh(ASSET_KALE, 600));

    adapter.update_prices(7, 600).unwrap();

    assert!(adapter.is_price_fresh(ASSET_KALE, 600));
    assert!(adapter.is_price_fresh(ASSET_KALE, 900)); // exactly max_price_age old
    assert!(!adapter.is_price_fresh(ASSET_KALE, 901)); // one second too old
    // A quote stamped in the future is not fresh
    assert!(!adapter.is_price_fresh(ASSET_KALE, 599));
}

#[test]
fn test_get_fresh_price() {
    let mut adapter = standard_adapter();
    adapter.update_prices(7, 600).unwrap();

    let fresh = adapter.get_fresh_price(ASSET_XLM, 700).unwrap();
    assert_eq!(fresh.price_usd, 11000000);

    assert!(adapter.get_fresh_price(ASSET_XLM, 2000).is_none());
}

#[test]
fn test_calculate_twap_serves_current_quote() {
    let mut adapter = standard_adapter();

    assert!(adapter.calculate_twap(ASSET_USDC, 3600).is_none());

    adapter.update_prices(7, 600).unwrap();
    assert_eq!(adapter.calculate_twap(ASSET_USDC, 3600), Some(10000000));
}

#[test]
fn test_calculate_price_impact() {
    // 5000 into 100000 of liquidity: 5% = 500 bp
    assert_eq!(ReflectorAdapterContract::calculate_price_impact(ASSET_KALE, 5000, 100000), 500);
    // No liquidity: full impact
    assert_eq!(ReflectorAdapterContract::calculate_price_impact(ASSET_KALE, 5000, 0), 10000);
    // Impact is capped at 100%
    assert_eq!(ReflectorAdapterContract::calculate_price_impact(ASSET_KALE, 2, 1), 10000);
}

#[test]
fn test_get_all_prices_defaults() {
    let adapter = standard_adapter();

    let prices = adapter.get_all_prices(500);
    assert_eq!(prices.kale_usd, 0);
    assert_eq!(prices.xlm_usd, 0);
    assert_eq!(prices.btc_usd, 0);
    assert_eq!(prices.usdc_usd, 10000000); // stable asset defaults to $1.00
    assert_eq!(prices.last_updated, 0);
    assert_eq!(prices.data_freshness, 500);
}

#[test]
fn test_get_all_prices_after_refresh() {
    let mut adapter = standard_adapter();
    adapter.update_prices(7, 600).unwrap();

    let prices = adapter.get_all_prices(750);
    assert_eq!(prices.kale_usd, 100000000);
    assert_eq!(prices.xlm_usd, 11000000);
    assert_eq!(prices.btc_usd, 430000000000);
    assert_eq!(prices.usdc_usd, 10000000);
    assert_eq!(prices.last_updated, 600);
    assert_eq!(prices.data_freshness, 150);
}

#[test]
fn test_update_config_oracle_admin_gate() {
    let mut adapter = standard_adapter();
    let new_config = OracleConfig {
        reflector_usd_oracle: 21,
        reflector_stellar_oracle: 22,
        update_frequency: 1200,
        price_deviation_threshold: 200,
        max_price_age: 900,
        decimals: 14,
    };

    assert_eq!(adapter.update_config(99, new_config), Err(Error::Unauthorized));
    assert_eq!(adapter.get_config().update_frequency, 600);

    adapter.update_config(1, new_config).unwrap();
    assert_eq!(adapter.get_config(), new_config);
}
