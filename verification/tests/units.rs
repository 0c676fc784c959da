use api::Asset;
use api::Interval;
use api::Market;
use api::Price;
use api::Quantity;
use api::Registry;
use api::Side;
use std::collections::HashSet;

fn keep<T>(value: T) -> &'static T {
    Box::leak(Box::new(value))
}

fn asset(code: &str) -> &'static Asset {
    keep(Asset::from(code.to_string()))
}

#[test]
fn it_works() {
    assert_eq!(2 + 2, 4);
}

#[test]
fn reverse_swaps_the_sides() {
    assert_eq!(Side::Buy.reverse(), Side::Sell);
    assert_eq!(Side::Sell.reverse(), Side::Buy);
    assert_eq!(Side::Buy.reverse().reverse(), Side::Buy);
}

#[test]
fn interval_has_its_short_name() {
    assert_eq!(Interval::I1m.as_str(), "1m");
    assert_eq!(Interval::I5m.as_str(), "5m");
    assert_eq!(Interval::I1m.to_string(), "1m");
    assert_eq!(Interval::I5m.to_string(), "5m");
}

#[test]
fn asset_is_known_by_its_code() {
    let first = Asset::from("BTC".to_string());
    let second = Asset::from("BTC".to_string());
    let other = Asset::from("ETH".to_string());
    assert!(first == second);
    assert!(first.same(&second));
    assert!(first != other);
    assert!(!first.same(&other));
    assert_eq!(first.to_string(), "BTC");
    assert!(first.clone() == first);
}

#[test]
fn market_is_known_by_its_pair() {
    let btc = asset("BTC");
    let usdt = asset("USDT");
    let market = Market::from((btc, usdt));
    assert_eq!(market.to_string(), "BTCUSDT");
    assert_eq!(market.base.to_string(), "BTC");
    assert_eq!(market.quote.to_string(), "USDT");
    let again = Market::from((asset("BTC"), asset("USDT")));
    assert!(market == again);
    assert!(market.same(&again));
    let turned = Market::from((usdt, btc));
    assert!(market != turned);
    let other = Market::from((asset("ETH"), usdt));
    assert!(!market.same(&other));
}

#[test]
fn interning_an_asset_twice_gives_one_instance() {
    let mut registry = Registry::new();
    let first = registry.asset(Asset::from("BTC".to_string()));
    let second = registry.asset(Asset::from("BTC".to_string()));
    assert!(first == second);
    assert!(std::ptr::eq(first, second));
    assert_eq!(registry.get_assets().len(), 1);
    let other = registry.asset(Asset::from("ETH".to_string()));
    assert!(!std::ptr::eq(first, other));
    assert_eq!(registry.get_assets().len(), 2);
    assert!(std::ptr::eq(registry.get_assets()[0], first));
    assert!(std::ptr::eq(registry.get_assets()[1], other));
    let third = registry.asset(Asset::from("BTC".to_string()));
    assert!(std::ptr::eq(first, third));
    assert_eq!(registry.get_assets().len(), 2);
}

#[test]
fn interning_a_market_resolves_its_assets() {
    let mut registry = Registry::new();
    let quote = registry.asset(Asset::from("USDT".to_string()));
    let market = registry.market(Asset::from("BTC".to_string()), Asset::from("USDT".to_string()));
    assert_eq!(market.to_string(), "BTCUSDT");
    assert!(std::ptr::eq(market.quote, quote));
    assert_eq!(registry.get_assets().len(), 2);
    assert_eq!(registry.get_assets()[0].to_string(), "USDT");
    assert_eq!(registry.get_assets()[1].to_string(), "BTC");
    assert!(std::ptr::eq(registry.get_assets()[1], market.base));
    assert_eq!(registry.get_markets().len(), 1);
    let again = registry.market(Asset::from("BTC".to_string()), Asset::from("USDT".to_string()));
    assert!(std::ptr::eq(market, again));
    assert_eq!(registry.get_markets().len(), 1);
    assert_eq!(registry.get_assets().len(), 2);
    let turned = registry.market(Asset::from("USDT".to_string()), Asset::from("BTC".to_string()));
    assert!(!std::ptr::eq(market, turned));
    assert_eq!(registry.get_markets().len(), 2);
    assert_eq!(registry.get_assets().len(), 2);
    assert!(std::ptr::eq(turned.base, quote));
}

#[test]
fn new_registry_is_empty() {
    let registry = Registry::new();
    assert!(registry.get_assets().is_empty());
    assert!(registry.get_markets().is_empty());
}

#[test]
fn quantity_times_price_changes_the_asset() {
    let btc = asset("BTC");
    let usdt = asset("USDT");
    let market = keep(Market::from((btc, usdt)));
    let quantity = Quantity { quantity: 5, asset: btc };
    let price = Price { price: 20000, market };
    let product = quantity * price;
    assert_eq!(product.quantity, 100000);
    assert_eq!(product.asset.to_string(), "USDT");
    let checked = quantity.checked_mul(price).unwrap();
    assert_eq!(checked.quantity, 100000);
    assert!(std::ptr::eq(checked.asset, usdt));
}

#[test]
fn quantity_of_another_asset_is_not_converted() {
    let btc = asset("BTC");
    let eth = asset("ETH");
    let usdt = asset("USDT");
    let market = keep(Market::from((btc, usdt)));
    let price = Price { price: 20000, market };
    assert!(Quantity { quantity: 5, asset: eth }.checked_mul(price).is_none());
    assert!(Quantity { quantity: 5, asset: usdt }.checked_mul(price).is_none());
}

#[test]
fn product_that_cannot_be_held_is_refused() {
    let btc = asset("BTC");
    let usdt = asset("USDT");
    let market = keep(Market::from((btc, usdt)));
    let price = Price { price: 2, market };
    assert!(Quantity { quantity: i64::MAX, asset: btc }.checked_mul(price).is_none());
    assert!(Quantity { quantity: i64::MIN, asset: btc }.checked_mul(price).is_none());
    let most = Quantity { quantity: i64::MAX / 2, asset: btc }.checked_mul(price).unwrap();
    assert_eq!(most.quantity, i64::MAX - 1);
    let negative = Quantity { quantity: -3, asset: btc }.checked_mul(price).unwrap();
    assert_eq!(negative.quantity, -6);
}

#[test]
fn quantities_of_one_asset_add() {
    let btc = asset("BTC");
    let sum = Quantity { quantity: 5, asset: btc } + Quantity { quantity: 7, asset: asset("BTC") };
    assert_eq!(sum.quantity, 12);
    assert_eq!(sum.asset.to_string(), "BTC");
    let checked = Quantity { quantity: 5, asset: btc }
        .checked_add(Quantity { quantity: -7, asset: btc })
        .unwrap();
    assert_eq!(checked.quantity, -2);
    assert!(std::ptr::eq(checked.asset, btc));
}

#[test]
fn quantities_of_different_assets_do_not_add() {
    let btc = asset("BTC");
    let eth = asset("ETH");
    assert!(Quantity { quantity: 5, asset: btc }
        .checked_add(Quantity { quantity: 7, asset: eth })
        .is_none());
}

#[test]
fn sum_that_cannot_be_held_is_refused() {
    let btc = asset("BTC");
    assert!(Quantity { quantity: i64::MAX, asset: btc }
        .checked_add(Quantity { quantity: 1, asset: btc })
        .is_none());
    assert!(Quantity { quantity: i64::MIN, asset: btc }
        .checked_add(Quantity { quantity: -1, asset: btc })
        .is_none());
    let most = Quantity { quantity: i64::MAX - 1, asset: btc }
        .checked_add(Quantity { quantity: 1, asset: btc })
        .unwrap();
    assert_eq!(most.quantity, i64::MAX);
}

#[test]
fn prices_compare_by_amount() {
    let btc = asset("BTC");
    let eth = asset("ETH");
    let usdt = asset("USDT");
    let one = keep(Market::from((btc, usdt)));
    let other = keep(Market::from((eth, usdt)));
    let low = Price { price: 80, market: one };
    let high = Price { price: 120, market: one };
    assert!(low < high);
    assert!(high > low);
    assert!(low <= low);
    assert!(low != high);
    assert!(low == Price { price: 80, market: other });
    assert_eq!(low.partial_cmp(&high), Some(std::cmp::Ordering::Less));
    assert_eq!(high.partial_cmp(&low), Some(std::cmp::Ordering::Greater));
    assert_eq!(low.partial_cmp(&low), Some(std::cmp::Ordering::Equal));
}

#[test]
fn quantities_compare_by_amount() {
    let btc = asset("BTC");
    let eth = asset("ETH");
    let small = Quantity { quantity: 1, asset: btc };
    let large = Quantity { quantity: 2, asset: btc };
    assert!(small < large);
    assert!(large > small);
    assert!(small == Quantity { quantity: 1, asset: eth });
    assert!(small != large);
    assert_eq!(small.partial_cmp(&large), Some(std::cmp::Ordering::Less));
    assert_eq!(large.partial_cmp(&small), Some(std::cmp::Ordering::Greater));
    assert_eq!(small.partial_cmp(&small), Some(std::cmp::Ordering::Equal));
}

#[test]
fn equal_assets_and_markets_hash_alike() {
    let mut assets = HashSet::new();
    assets.insert(Asset::from("BTC".to_string()));
    assets.insert(Asset::from("BTC".to_string()));
    assets.insert(Asset::from("ETH".to_string()));
    assert_eq!(assets.len(), 2);
    assert!(assets.contains(&Asset::from("ETH".to_string())));
    let mut markets = HashSet::new();
    markets.insert(Market::from((asset("BTC"), asset("USDT"))));
    markets.insert(Market::from((asset("BTC"), asset("USDT"))));
    markets.insert(Market::from((asset("USDT"), asset("BTC"))));
    assert_eq!(markets.len(), 2);
    assert!(markets.contains(&Market::from((asset("USDT"), asset("BTC")))));
}
