use subscription_chain::identity::Identity;
use subscription_chain::states::config::Config;
use subscription_chain::states::config::CONFIG_SEED;
use subscription_chain::states::subscription::SubscriptionType;

fn create_test_config(month_price: u64, quartal_price: u64, annual_price: u64) -> Config {
    Config {
        creator: Identity::default(),
        month_price,
        quartal_price,
        annual_price,
        bump: 0,
    }
}

#[test]
fn test_get_price_type_month() {
    let config = create_test_config(100, 250, 900);
    assert_eq!(config.get_price_type(SubscriptionType::Month), 100);
}

#[test]
fn test_get_price_type_quartal() {
    let config = create_test_config(100, 250, 900);
    assert_eq!(config.get_price_type(SubscriptionType::Quartal), 250);
}

#[test]
fn test_get_price_type_annual() {
    let config = create_test_config(100, 250, 900);
    assert_eq!(config.get_price_type(SubscriptionType::Annual), 900);
}

#[test]
fn test_get_price_type_with_different_prices() {
    let config = create_test_config(10_000_000, 25_000_000, 90_000_000);

    assert_eq!(config.get_price_type(SubscriptionType::Month), 10_000_000);
    assert_eq!(config.get_price_type(SubscriptionType::Quartal), 25_000_000);
    assert_eq!(config.get_price_type(SubscriptionType::Annual), 90_000_000);
}

#[test]
fn test_config_seed_constant() {
    assert_eq!(CONFIG_SEED, "config");
}

#[test]
fn price_lookup_is_repeatable() {
    let config = create_test_config(1, 2, u64::MAX);
    for typ in [SubscriptionType::Month, SubscriptionType::Quartal, SubscriptionType::Annual] {
        assert_eq!(config.get_price_type(typ), config.get_price_type(typ));
    }
    assert_eq!(config.get_price_type(SubscriptionType::Annual), u64::MAX);
}
