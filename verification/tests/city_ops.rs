use cityrade_core::building::{Building, BuildingType};
use cityrade_core::city::{City, Terrain};
use cityrade_core::error::GameError;
use cityrade_core::resources::ResourceType;

fn rich_city() -> City {
    let mut c = City::new(
        "Riverton".to_string(),
        "owner-1".to_string(),
        Terrain::Plain,
        (0, 0),
    );
    c.resources.set(ResourceType::Gold, 1_000_000);
    c.resources.set(ResourceType::Wood, 1_000_000);
    c.resources.set(ResourceType::Stone, 1_000_000);
    c.resources.set(ResourceType::Iron, 1_000_000);
    c.resources.set(ResourceType::Crystal, 1_000_000);
    c
}

#[test]
fn new_city_starts_with_defaults() {
    let c = City::new(
        "Hilltop".to_string(),
        "owner-2".to_string(),
        Terrain::Forest,
        (3, 4),
    );
    assert_eq!(c.population, 10);
    assert_eq!(c.stats.max_buildings, 5);
    assert_eq!(c.stats.happiness, 50);
    assert!(c.buildings.is_empty());
    assert_eq!(c.position, (3, 4));
    assert_eq!(c.created_at, c.last_updated);
}

#[test]
fn add_building_assigns_fresh_ids_and_pays() {
    let mut c = rich_city();
    let id0 = c
        .add_building(BuildingType::Residential, "a".to_string(), (0, 0))
        .unwrap();
    let id1 = c
        .add_building(BuildingType::Residential, "b".to_string(), (0, 1))
        .unwrap();
    assert_eq!(id0, 0);
    assert_eq!(id1, 1);
    assert_eq!(c.buildings.len(), 2);
    assert_eq!(c.buildings[0].level, 1);
    assert_eq!(c.resources.get(&ResourceType::Wood), 1_000_000 - 100);
    assert_eq!(c.resources.get(&ResourceType::Stone), 1_000_000 - 60);
}

#[test]
fn add_building_rejects_at_the_building_cap() {
    let mut c = rich_city();
    for i in 0..5 {
        c.add_building(BuildingType::Residential, format!("b{}", i), (i, 0))
            .unwrap();
    }
    // Affordable and at a free position, but the cap of five is reached.
    let r = c.add_building(BuildingType::Residential, "overflow".to_string(), (9, 9));
    assert_eq!(r, Err(GameError::BuildingLimitReached));
    assert_eq!(c.buildings.len(), 5);
}

#[test]
fn add_building_rejects_an_occupied_position() {
    let mut c = rich_city();
    c.add_building(BuildingType::Residential, "a".to_string(), (2, 2))
        .unwrap();
    let r = c.add_building(BuildingType::Farm, "b".to_string(), (2, 2));
    assert_eq!(r, Err(GameError::PositionOccupied));
    assert_eq!(c.buildings.len(), 1);
}

#[test]
fn add_building_rejects_unaffordable_costs() {
    let mut c = City::new(
        "Poorville".to_string(),
        "owner-3".to_string(),
        Terrain::Plain,
        (0, 0),
    );
    // A power plant costs far more than the starting ledger holds.
    let r = c.add_building(BuildingType::PowerPlant, "plant".to_string(), (0, 0));
    assert_eq!(r, Err(GameError::InsufficientResources));
    assert!(c.buildings.is_empty());
}

#[test]
fn upgrade_building_pays_the_scaled_cost() {
    let mut c = rich_city();
    let id = c
        .add_building(BuildingType::Residential, "a".to_string(), (0, 0))
        .unwrap();
    let wood_before = c.resources.get(&ResourceType::Wood);
    c.upgrade_building(id).unwrap();
    assert_eq!(c.buildings[0].level, 2);
    assert_eq!(c.resources.get(&ResourceType::Wood), wood_before - 75);
}

#[test]
fn upgrade_building_rejects_unknown_ids() {
    let mut c = rich_city();
    assert_eq!(c.upgrade_building(42), Err(GameError::BuildingNotFound));
}

#[test]
fn remove_building_deletes_without_refund() {
    let mut c = rich_city();
    let id = c
        .add_building(BuildingType::Residential, "a".to_string(), (0, 0))
        .unwrap();
    let wood_after_build = c.resources.get(&ResourceType::Wood);
    c.remove_building(id).unwrap();
    assert!(c.buildings.is_empty());
    assert_eq!(c.resources.get(&ResourceType::Wood), wood_after_build);
    assert_eq!(c.remove_building(id), Err(GameError::BuildingNotFound));
}

#[test]
fn population_changes_stay_in_range() {
    let mut c = rich_city();
    c.decrease_population(1_000_000);
    assert_eq!(c.population, 0);
    c.increase_population(1_000_000);
    assert_eq!(c.population, c.stats.max_population);
}

#[test]
fn production_tick_on_plain_terrain() {
    let mut c = City::new(
        "Plainstead".to_string(),
        "owner-4".to_string(),
        Terrain::Plain,
        (0, 0),
    );
    c.update_resource_production();
    // Base rates scaled by the plain's modifiers: food 8 * 1.2 = 9.
    assert_eq!(c.resources.get_production_rate(&ResourceType::Gold), 5);
    assert_eq!(c.resources.get_production_rate(&ResourceType::Wood), 3);
    assert_eq!(c.resources.get_production_rate(&ResourceType::Stone), 2);
    assert_eq!(c.resources.get_production_rate(&ResourceType::Food), 9);
    assert_eq!(c.resources.get_production_rate(&ResourceType::Population), 0);
    assert_eq!(c.resources.get(&ResourceType::Gold), 105);
    assert_eq!(c.resources.get(&ResourceType::Food), 209);
}

#[test]
fn production_tick_counts_buildings_and_terrain() {
    let mut c = City::new(
        "Forestham".to_string(),
        "owner-5".to_string(),
        Terrain::Forest,
        (0, 0),
    );
    c.buildings.push(Building::new(
        0,
        "mill".to_string(),
        BuildingType::LumberMill,
        (0, 0),
    ));
    c.next_building_id = 1;
    c.update_resource_production();
    // Wood: (3 base + 10 from the mill) * 1.5 = 19 (truncated).
    assert_eq!(c.resources.get_production_rate(&ResourceType::Wood), 19);
    // Food: 8 * 0.8 = 6.
    assert_eq!(c.resources.get_production_rate(&ResourceType::Food), 6);
}

#[test]
fn stats_tick_folds_every_building() {
    let mut c = rich_city();
    c.buildings.push(Building::new(0, "temple".to_string(), BuildingType::Temple, (0, 0)));
    c.buildings.push(Building::new(1, "wall".to_string(), BuildingType::Wall, (1, 0)));
    c.buildings.push(Building::new(2, "camp".to_string(), BuildingType::Barracks, (2, 0)));
    c.next_building_id = 3;
    c.population = 47;
    c.update_stats();
    assert_eq!(c.stats.happiness, 50 + 5 - 2);
    assert_eq!(c.stats.defense, 10 + 20 + 10);
    assert_eq!(c.stats.culture, 3);
    assert_eq!(c.stats.max_population, 50);
    assert_eq!(c.stats.max_buildings, 5 + 47 / 20);
}

#[test]
fn population_tick_starves_without_food() {
    let mut c = rich_city();
    c.resources.set(ResourceType::Food, 5);
    c.population = 10;
    c.update_population();
    assert_eq!(c.population, 9);
    assert_eq!(c.stats.happiness, 45);
}

#[test]
fn population_tick_grows_by_at_most_one() {
    let mut c = rich_city();
    c.resources.set(ResourceType::Food, 1_000);
    let before = c.population;
    c.update_population();
    assert!(c.population == before || c.population == before + 1);
    assert!(c.population <= c.stats.max_population);
}

#[test]
fn full_tick_stamps_the_clock() {
    let mut c = rich_city();
    c.last_updated = 0;
    c.update();
    assert!(c.last_updated > 0);
}

#[test]
fn city_round_trips_through_its_parts() {
    let mut c = rich_city();
    c.add_building(BuildingType::Residential, "a".to_string(), (1, 2))
        .unwrap();
    c.resources.set(ResourceType::Energy, 777);
    c.update_stats();
    let buildings_copy: Vec<Building> = c
        .buildings
        .iter()
        .map(|b| Building {
            id: b.id,
            name: b.name.clone(),
            building_type: b.building_type,
            level: b.level,
            position: b.position,
        })
        .collect();
    let rebuilt = City::from_parts(
        c.id.clone(),
        c.name.clone(),
        c.owner_id.clone(),
        c.population,
        buildings_copy,
        c.resources,
        c.stats,
        c.terrain,
        c.position,
        c.created_at,
        c.last_updated,
        c.next_building_id,
    )
    .unwrap();
    assert_eq!(rebuilt.id, c.id);
    assert_eq!(rebuilt.name, c.name);
    assert_eq!(rebuilt.owner_id, c.owner_id);
    assert_eq!(rebuilt.population, c.population);
    assert_eq!(rebuilt.buildings.len(), c.buildings.len());
    assert_eq!(rebuilt.buildings[0].id, c.buildings[0].id);
    assert_eq!(rebuilt.buildings[0].name, c.buildings[0].name);
    assert_eq!(rebuilt.buildings[0].level, c.buildings[0].level);
    assert_eq!(rebuilt.buildings[0].position, c.buildings[0].position);
    assert_eq!(rebuilt.resources, c.resources);
    assert_eq!(rebuilt.stats, c.stats);
    assert_eq!(rebuilt.terrain, c.terrain);
    assert_eq!(rebuilt.position, c.position);
    assert_eq!(rebuilt.created_at, c.created_at);
    assert_eq!(rebuilt.last_updated, c.last_updated);
    assert_eq!(rebuilt.next_building_id, c.next_building_id);
}

#[test]
fn from_parts_rejects_duplicate_building_ids() {
    let buildings = vec![
        Building::new(0, "a".to_string(), BuildingType::Farm, (0, 0)),
        Building::new(0, "b".to_string(), BuildingType::Farm, (1, 1)),
    ];
    let r = City::from_parts(
        "id".to_string(),
        "name".to_string(),
        "owner".to_string(),
        10,
        buildings,
        cityrade_core::resources::Resources::new(),
        Default::default(),
        Terrain::Plain,
        (0, 0),
        0,
        0,
        5,
    );
    assert!(r.is_none());
}

#[test]
fn reports_render_the_city_state() {
    let c = rich_city();
    let resources = c.get_resource_report();
    assert!(resources.contains("Riverton"));
    assert!(resources.contains("Gold"));
    let buildings = c.get_buildings_report();
    assert!(buildings.contains("0/5"));
    let stats = c.get_stats_report();
    assert!(stats.contains("Happiness: 50"));
    assert!(stats.contains("Plain"));
}
