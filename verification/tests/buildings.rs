use cityrade_core::building::{Building, BuildingType};
use cityrade_core::resources::{ResourceType, Resources};

#[test]
fn base_costs_match_the_catalog() {
    assert_eq!(
        BuildingType::Residential.base_cost(),
        vec![(ResourceType::Wood, 50), (ResourceType::Stone, 30)]
    );
    assert_eq!(
        BuildingType::Wall.base_cost(),
        vec![(ResourceType::Stone, 300), (ResourceType::Iron, 100)]
    );
    assert_eq!(BuildingType::Temple.base_cost().len(), 4);
}

#[test]
fn production_effects_scale_with_level() {
    assert_eq!(
        BuildingType::Farm.production_effect(1),
        vec![(ResourceType::Food, 13)]
    );
    assert_eq!(
        BuildingType::Farm.production_effect(2),
        vec![(ResourceType::Food, 16)]
    );
    assert_eq!(
        BuildingType::Barracks.production_effect(1),
        vec![(ResourceType::Gold, -12), (ResourceType::Food, -6)]
    );
    assert_eq!(BuildingType::Wall.production_effect(5), vec![]);
}

#[test]
fn upgrade_cost_scales_by_three_halves_per_level() {
    let b = Building::new(0, "home".to_string(), BuildingType::Residential, (0, 0));
    assert_eq!(b.level, 1);
    // base {Wood: 50, Stone: 30} at level 1 scales by 1.5, truncated.
    assert_eq!(
        b.upgrade_cost(),
        vec![(ResourceType::Wood, 75), (ResourceType::Stone, 45)]
    );
}

#[test]
fn upgrade_cost_at_level_two_squares_the_factor() {
    let mut b = Building::new(0, "home".to_string(), BuildingType::Residential, (0, 0));
    b.upgrade();
    assert_eq!(b.level, 2);
    // 50 * 2.25 = 112.5 and 30 * 2.25 = 67.5, both truncated toward zero.
    assert_eq!(
        b.upgrade_cost(),
        vec![(ResourceType::Wood, 112), (ResourceType::Stone, 67)]
    );
}

#[test]
fn deep_upgrades_cap_at_the_integer_ceiling() {
    let mut b = Building::new(0, "keep".to_string(), BuildingType::Residential, (0, 0));
    b.level = 100;
    let costs = b.upgrade_cost();
    assert_eq!(costs, vec![(ResourceType::Wood, u32::MAX), (ResourceType::Stone, u32::MAX)]);
}

#[test]
fn apply_production_adds_and_clamps() {
    let b = Building::new(1, "mine".to_string(), BuildingType::CrystalMine, (1, 1));
    let mut r = Resources::new();
    r.set(ResourceType::Energy, 5);
    b.apply_production_to_resources(&mut r);
    // Crystal gains 1 + 1/3 = 1; energy upkeep of 12 clamps 5 at zero.
    assert_eq!(r.get(&ResourceType::Crystal), 1);
    assert_eq!(r.get(&ResourceType::Energy), 0);
}

#[test]
fn building_info_mentions_its_name_and_kind() {
    let b = Building::new(7, "granary".to_string(), BuildingType::Farm, (2, 3));
    let info = b.get_info();
    assert!(info.contains("granary"));
    assert!(info.contains("Farm"));
    assert!(info.contains("7"));
}
