use cityrade_core::account::Claims;
use cityrade_core::city::{City, Terrain};
use cityrade_core::error::GameError;
use cityrade_core::i18n::I18n;
use cityrade_core::map::World;
use cityrade_core::plugin::{PluginManager, PluginRecord};
use cityrade_core::world::{TerrainTile, WorldGenerator, WorldMap};

#[test]
fn a_fresh_map_is_all_land() {
    let m = WorldMap::new(4, 3);
    assert_eq!(m.get_width(), 4);
    assert_eq!(m.get_height(), 3);
    for x in 0..4 {
        for y in 0..3 {
            assert_eq!(m.get_tile(x, y), Some(&TerrainTile::Land));
        }
    }
    assert_eq!(m.get_tile(4, 0), None);
    assert_eq!(m.get_tile(0, 3), None);
    assert_eq!(m.get_tile(-1, 0), None);
}

#[test]
fn set_tile_writes_only_inside_the_bounds() {
    let mut m = WorldMap::new(4, 3);
    m.set_tile(2, 1, TerrainTile::Water);
    assert_eq!(m.get_tile(2, 1), Some(&TerrainTile::Water));
    assert_eq!(m.get_tile(1, 1), Some(&TerrainTile::Land));
    m.set_tile(9, 9, TerrainTile::Water);
    assert_eq!(m.get_width(), 4);
}

#[test]
fn expand_map_keeps_old_tiles_and_reveals_unknown() {
    let mut m = WorldMap::new(2, 2);
    m.set_tile(1, 1, TerrainTile::Water);
    m.expand_map(3, 4);
    assert_eq!(m.get_width(), 3);
    assert_eq!(m.get_height(), 4);
    assert_eq!(m.get_tile(1, 1), Some(&TerrainTile::Water));
    assert_eq!(m.get_tile(0, 0), Some(&TerrainTile::Land));
    assert_eq!(m.get_tile(2, 0), Some(&TerrainTile::Unknown));
    assert_eq!(m.get_tile(0, 3), Some(&TerrainTile::Unknown));
}

#[test]
fn named_markers_occupy_their_cells() {
    let mut m = WorldMap::new(3, 3);
    m.add_building(0, 0, "mill".to_string());
    m.add_city(2, 2, "Riverton".to_string());
    assert_eq!(m.get_tile(0, 0), Some(&TerrainTile::Building("mill".to_string())));
    assert_eq!(m.get_tile(2, 2), Some(&TerrainTile::City("Riverton".to_string())));
}

#[test]
fn generated_worlds_hold_only_natural_tiles() {
    let mut g = WorldGenerator::new(Some(7));
    let m = g.generate(12, 9);
    assert_eq!(m.get_width(), 12);
    assert_eq!(m.get_height(), 9);
    for x in 0..12 {
        for y in 0..9 {
            let t = m.get_tile(x, y).unwrap();
            assert!(matches!(
                t,
                TerrainTile::Land | TerrainTile::Water | TerrainTile::ResourceSpot(_)
            ));
        }
    }
}

#[test]
fn the_world_registry_collects_cities() {
    let mut w = World::new();
    assert!(w.get_cities().is_empty());
    w.add_city(City::new("a".to_string(), "o".to_string(), Terrain::Snow, (0, 0)));
    w.add_city(City::new("b".to_string(), "o".to_string(), Terrain::Swamp, (1, 1)));
    assert_eq!(w.get_cities().len(), 2);
    assert_eq!(w.get_cities()[0].name, "a");
}

#[test]
fn translations_fall_back_to_english_then_the_key() {
    let mut i18n = I18n::new("de");
    i18n.add_translation("de", "greet", "Hallo");
    i18n.add_translation("en", "greet", "Hello");
    i18n.add_translation("en", "bye", "Goodbye");
    assert_eq!(i18n.get("greet"), "Hallo");
    assert_eq!(i18n.get("bye"), "Goodbye");
    assert_eq!(i18n.get("missing"), "missing");
}

#[test]
fn set_locale_ignores_unknown_locales() {
    let mut i18n = I18n::new("en");
    i18n.add_translation("en", "greet", "Hello");
    i18n.add_translation("fr", "greet", "Bonjour");
    i18n.set_locale("fr");
    assert_eq!(i18n.get("greet"), "Bonjour");
    i18n.set_locale("tlh");
    assert_eq!(i18n.get("greet"), "Bonjour");
}

#[test]
fn add_translation_replaces_an_existing_key() {
    let mut i18n = I18n::new("en");
    i18n.add_translation("en", "greet", "Hi");
    i18n.add_translation("en", "greet", "Hello");
    assert_eq!(i18n.get("greet"), "Hello");
}

fn sample_plugin(name: &str) -> PluginRecord {
    PluginRecord {
        name: name.to_string(),
        version: "1.0".to_string(),
        description: "adds festivals".to_string(),
        author: "guild".to_string(),
        license: "MIT".to_string(),
        enabled: false,
    }
}

#[test]
fn the_registry_toggles_handlers_by_name() {
    let mut pm = PluginManager::new();
    pm.register_plugin(sample_plugin("festivals"));
    pm.register_plugin(sample_plugin("caravans"));
    assert!(pm.enable_plugin("festivals"));
    assert!(!pm.enable_plugin("ghosts"));
    assert!(pm.get_plugin("festivals").unwrap().enabled);
    assert!(!pm.get_plugin("caravans").unwrap().enabled);
    assert!(pm.disable_plugin("festivals"));
    assert!(!pm.get_plugin("festivals").unwrap().enabled);
    assert!(pm.get_plugin("ghosts").is_none());
    if let Some(p) = pm.get_plugin_mut("caravans") {
        p.enabled = true;
    }
    assert!(pm.get_plugin("caravans").unwrap().enabled);
}

#[test]
fn claims_carry_subject_and_expiry() {
    let c = Claims::new("account-1".to_string(), 123_456);
    assert_eq!(c.sub, "account-1");
    assert_eq!(c.exp, 123_456);
}

#[test]
fn error_messages_are_short_and_stable() {
    assert_eq!(GameError::InsufficientResources.message(), "not enough resources");
    assert_eq!(GameError::MarketNotFound.message(), "market not found");
    assert_ne!(
        GameError::PositionOccupied.message(),
        GameError::BuildingNotFound.message()
    );
}
