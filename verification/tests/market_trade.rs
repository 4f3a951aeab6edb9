use cityrade_core::city::{City, Terrain};
use cityrade_core::error::GameError;
use cityrade_core::market::{
    resource_to_string, Market, MarketEntry, MarketItem, TradeManager,
};
use cityrade_core::resources::ResourceType;

#[test]
fn new_market_tracks_gold_wood_and_stone() {
    let m = Market::new();
    assert_eq!(m.entries.len(), 3);
    assert_eq!(m.entries[0].item.resource, ResourceType::Gold);
    assert_eq!(m.entries[0].item.base_price, 100);
    assert_eq!(m.entries[1].item.base_price, 20);
    assert_eq!(m.entries[2].item.base_price, 40);
    assert_eq!(m.entries[0].demand_centi, 100);
    assert_eq!(m.entries[0].supply_centi, 100);
}

#[test]
fn update_prices_rounds_base_times_demand_over_supply() {
    let mut m = Market {
        entries: vec![MarketEntry {
            item: MarketItem {
                resource: ResourceType::Gold,
                quantity: 100,
                base_price: 100,
                current_price: 100,
            },
            demand_centi: 120,
            supply_centi: 80,
        }],
    };
    m.update_prices();
    // 100 * 1.2 / 0.8 = 150 exactly.
    assert_eq!(m.entries[0].item.current_price, 150);
}

#[test]
fn update_prices_rounds_halves_up() {
    let mut m = Market {
        entries: vec![MarketEntry {
            item: MarketItem {
                resource: ResourceType::Wood,
                quantity: 1,
                base_price: 3,
                current_price: 3,
            },
            demand_centi: 100,
            supply_centi: 200,
        }],
    };
    m.update_prices();
    // 3 * 1.0 / 2.0 = 1.5, rounded to 2.
    assert_eq!(m.entries[0].item.current_price, 2);
}

#[test]
fn buy_takes_stock_and_nudges_demand() {
    let mut m = Market::new();
    let paid = m.buy(&ResourceType::Gold, 10).unwrap();
    assert_eq!(paid, 1000);
    assert_eq!(m.entries[0].item.quantity, 90);
    assert_eq!(m.entries[0].demand_centi, 101);
    // The price itself moves only on the next price pass.
    assert_eq!(m.entries[0].item.current_price, 100);
}

#[test]
fn buy_rejects_short_stock_and_untracked_kinds() {
    let mut m = Market::new();
    assert_eq!(
        m.buy(&ResourceType::Gold, 101),
        Err(GameError::InsufficientResources)
    );
    assert_eq!(
        m.buy(&ResourceType::Food, 1),
        Err(GameError::ResourceUntracked)
    );
    assert_eq!(m.entries[0].item.quantity, 100);
}

#[test]
fn sell_adds_stock_and_nudges_supply() {
    let mut m = Market::new();
    let earned = m.sell(&ResourceType::Wood, 50).unwrap();
    assert_eq!(earned, 1000);
    assert_eq!(m.entries[1].item.quantity, 150);
    assert_eq!(m.entries[1].supply_centi, 101);
    assert_eq!(
        m.sell(&ResourceType::Energy, 1),
        Err(GameError::ResourceUntracked)
    );
}

#[test]
fn resource_names_render() {
    assert_eq!(resource_to_string(&ResourceType::Gold), "Gold");
    assert_eq!(resource_to_string(&ResourceType::Crystal), "Crystal");
}

#[test]
fn establish_route_needs_markets_on_both_ends() {
    let mut tm = TradeManager::new();
    assert_eq!(
        tm.establish_trade_route("a", "b", ResourceType::Gold, 5),
        Err(GameError::RouteEndpointMissingMarket)
    );
    tm.create_city_market("a");
    assert_eq!(
        tm.establish_trade_route("a", "b", ResourceType::Gold, 5),
        Err(GameError::RouteEndpointMissingMarket)
    );
    tm.create_city_market("b");
    assert_eq!(
        tm.establish_trade_route("a", "b", ResourceType::Food, 5),
        Err(GameError::ResourceUntracked)
    );
    tm.establish_trade_route("a", "b", ResourceType::Gold, 5).unwrap();
    assert_eq!(tm.routes.len(), 1);
    assert_eq!(tm.routes[0].duration, 10);
    assert_eq!(tm.routes[0].price_per_unit, 100);
    assert_eq!(tm.routes[0].quantity, 5);
}

#[test]
fn market_of_finds_registered_markets() {
    let mut tm = TradeManager::new();
    tm.create_city_market("a");
    assert!(tm.market_of("a").is_ok());
    assert_eq!(tm.market_of("zzz").err(), Some(GameError::MarketNotFound));
}

fn two_cities() -> Vec<City> {
    vec![
        City::new("a".to_string(), "o1".to_string(), Terrain::Plain, (0, 0)),
        City::new("b".to_string(), "o2".to_string(), Terrain::Plain, (5, 5)),
    ]
}

#[test]
fn route_survives_nine_ticks_and_leaves_on_the_tenth() {
    let mut tm = TradeManager::new();
    tm.create_city_market("a");
    tm.create_city_market("b");
    tm.establish_trade_route("a", "b", ResourceType::Gold, 30).unwrap();
    let mut cities = two_cities();
    for tick in 1..=9 {
        tm.update_trade_routes(&mut cities);
        assert_eq!(tm.routes.len(), 1, "route gone after tick {}", tick);
        assert_eq!(tm.routes[0].duration, 10 - tick);
    }
    tm.update_trade_routes(&mut cities);
    assert!(tm.routes.is_empty());
    // 30 gold moved from the source to the target.
    assert_eq!(cities[0].resources.get(&ResourceType::Gold), 70);
    assert_eq!(cities[1].resources.get(&ResourceType::Gold), 130);
}

#[test]
fn completed_route_eases_both_market_factors() {
    let mut tm = TradeManager::new();
    tm.create_city_market("a");
    tm.create_city_market("b");
    tm.establish_trade_route("a", "b", ResourceType::Gold, 10).unwrap();
    let mut cities = two_cities();
    for _ in 0..10 {
        tm.update_trade_routes(&mut cities);
    }
    // Source supply and target demand each dropped by 0.02.
    let source = tm.market_of("a").unwrap();
    assert_eq!(source.entries[0].supply_centi, 98);
    assert_eq!(source.entries[0].demand_centi, 100);
    // Price pass already ran: round(100 * 1.00 / 0.98) = 102.
    assert_eq!(source.entries[0].item.current_price, 102);
    let target = tm.market_of("b").unwrap();
    assert_eq!(target.entries[0].demand_centi, 98);
    // round(100 * 0.98 / 1.00) = 98.
    assert_eq!(target.entries[0].item.current_price, 98);
}

#[test]
fn failed_transfer_keeps_the_route_for_retry() {
    let mut tm = TradeManager::new();
    tm.create_city_market("a");
    tm.create_city_market("b");
    // The source starts with 100 gold; 500 cannot be covered.
    tm.establish_trade_route("a", "b", ResourceType::Gold, 500).unwrap();
    let mut cities = two_cities();
    for _ in 0..12 {
        tm.update_trade_routes(&mut cities);
    }
    assert_eq!(tm.routes.len(), 1);
    assert_eq!(tm.routes[0].duration, 0);
    assert_eq!(cities[0].resources.get(&ResourceType::Gold), 100);
    // Once the source can afford it, the retry goes through and the route leaves.
    cities[0].resources.set(ResourceType::Gold, 600);
    tm.update_trade_routes(&mut cities);
    assert!(tm.routes.is_empty());
    assert_eq!(cities[0].resources.get(&ResourceType::Gold), 100);
    assert_eq!(cities[1].resources.get(&ResourceType::Gold), 600);
}

#[test]
fn create_city_market_replaces_an_existing_one() {
    let mut tm = TradeManager::new();
    tm.create_city_market("a");
    tm.market_of("a").unwrap();
    tm.create_city_market("a");
    assert_eq!(tm.markets.len(), 1);
    assert_eq!(tm.market_of("a").unwrap().entries.len(), 3);
}
