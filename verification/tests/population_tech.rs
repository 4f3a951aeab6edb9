use cityrade_core::population::{Population, PopulationClass};
use cityrade_core::resources::ResourceType;
use cityrade_core::technology::{TechnologyTree, TechnologyType};

#[test]
fn new_population_has_forty_heads() {
    let p = Population::new();
    assert_eq!(p.total(), 40);
    assert_eq!(p.count(PopulationClass::Peasant), 20);
    assert_eq!(p.count(PopulationClass::Noble), 1);
    assert_eq!(p.happiness_centi, 70);
    assert_eq!(p.daily_food_consumption(), 20);
}

#[test]
fn growth_of_ten_splits_six_three_and_one() {
    let mut p = Population::new();
    p.distribute_growth(10);
    // 60% to peasants, 30% to workers, the remaining one head to the
    // first of the other classes in fixed order: the merchants.
    assert_eq!(p.count(PopulationClass::Peasant), 26);
    assert_eq!(p.count(PopulationClass::Worker), 13);
    assert_eq!(p.count(PopulationClass::Merchant), 4);
    assert_eq!(p.count(PopulationClass::Soldier), 5);
    assert_eq!(p.count(PopulationClass::Scholar), 1);
    assert_eq!(p.count(PopulationClass::Noble), 1);
}

#[test]
fn growth_remainder_spreads_over_the_late_classes() {
    let mut p = Population::new();
    p.distribute_growth(13);
    // 13: peasants 7, workers 3, remainder 3 goes one each to
    // merchants, soldiers, and scholars.
    assert_eq!(p.count(PopulationClass::Peasant), 27);
    assert_eq!(p.count(PopulationClass::Worker), 13);
    assert_eq!(p.count(PopulationClass::Merchant), 4);
    assert_eq!(p.count(PopulationClass::Soldier), 6);
    assert_eq!(p.count(PopulationClass::Scholar), 2);
    assert_eq!(p.count(PopulationClass::Noble), 1);
}

#[test]
fn decline_removes_proportional_shares_in_order() {
    let mut p = Population::new();
    p.peasants = 100_000;
    p.workers = 0;
    p.merchants = 0;
    p.soldiers = 0;
    p.scholars = 0;
    p.nobles = 0;
    p.distribute_decline(960);
    assert_eq!(p.count(PopulationClass::Peasant), 99_040);
}

#[test]
fn update_with_a_food_shortage_dims_happiness() {
    let mut p = Population::new();
    // 40 heads need 20 food; none is on hand.
    p.update(0, 1_000);
    // Penalty: (20 - 0) * 10 / 20 = 10 hundredths.
    assert_eq!(p.happiness_centi, 60);
    assert_eq!(p.next_growth_tick, 9);
    assert_eq!(p.total(), 40);
}

#[test]
fn update_with_plenty_brightens_happiness() {
    let mut p = Population::new();
    p.update(1_000, 1_000);
    assert_eq!(p.happiness_centi, 71);
    assert_eq!(p.next_growth_tick, 9);
}

#[test]
fn growth_evaluation_fires_when_the_countdown_hits_zero() {
    let mut p = Population::new();
    p.peasants = 100_000;
    p.workers = 0;
    p.merchants = 0;
    p.soldiers = 0;
    p.scholars = 0;
    p.nobles = 0;
    p.next_growth_tick = 0;
    p.update(1_000_000, 1_000_000);
    // Happiness 71 gives a modifier of 0.92; rate 0.02 * 0.92 over
    // 100000 heads grows 1840, split 1104/552/46 x4.
    assert_eq!(p.count(PopulationClass::Peasant), 101_104);
    assert_eq!(p.count(PopulationClass::Worker), 552);
    assert_eq!(p.count(PopulationClass::Merchant), 46);
    assert_eq!(p.count(PopulationClass::Soldier), 46);
    assert_eq!(p.count(PopulationClass::Scholar), 46);
    assert_eq!(p.count(PopulationClass::Noble), 46);
    assert_eq!(p.next_growth_tick, 10);
}

#[test]
fn unhappy_towns_shrink_when_the_countdown_hits_zero() {
    let mut p = Population::new();
    p.peasants = 100_000;
    p.workers = 0;
    p.merchants = 0;
    p.soldiers = 0;
    p.scholars = 0;
    p.nobles = 0;
    p.happiness_centi = 0;
    p.next_growth_tick = 0;
    p.update(1_000_000, 1_000_000);
    // Happiness climbs to 1; the modifier is -0.48, so 960 heads leave.
    assert_eq!(p.count(PopulationClass::Peasant), 99_040);
    assert_eq!(p.next_growth_tick, 10);
}

#[test]
fn full_housing_stalls_growth() {
    let mut p = Population::new();
    p.next_growth_tick = 0;
    let before = p.total();
    p.update(1_000, 10);
    assert_eq!(p.total(), before);
    assert_eq!(p.next_growth_tick, 10);
}

#[test]
fn production_bonus_weighs_the_class_mix() {
    let p = Population::new();
    // Wood: (0.5 * 20 + 1.0 * 10) / 40 = 0.5, in percent 50.
    assert_eq!(p.get_production_bonus(&ResourceType::Wood), 50);
    // Stone: 1.5 * 10 / 40 = 0.375 -> 37 percent truncated.
    assert_eq!(p.get_production_bonus(&ResourceType::Stone), 37);
    // Gold: (2*3 + 3*1 + 1*1) / 40 = 0.25 -> 25 percent.
    assert_eq!(p.get_production_bonus(&ResourceType::Gold), 25);
    assert_eq!(p.get_production_bonus(&ResourceType::Food), 0);
}

#[test]
fn technology_tree_serves_its_six_nodes() {
    let tree = TechnologyTree::new();
    assert_eq!(tree.get_all_technologies().len(), 6);
    let trade = tree.get_technology(&TechnologyType::Trade).unwrap();
    assert_eq!(trade.name, "Trade");
    assert_eq!(trade.cost, 200);
    assert_eq!(trade.prerequisites, vec![TechnologyType::Agriculture]);
    let adv = tree
        .get_technology(&TechnologyType::AdvancedConstruction)
        .unwrap();
    assert_eq!(
        adv.prerequisites,
        vec![TechnologyType::BasicConstruction, TechnologyType::Mining]
    );
    assert!(tree.get_technology(&TechnologyType::Banking).is_none());
    assert!(tree.get_technology(&TechnologyType::Fortification).is_none());
}

#[test]
fn root_technologies_have_no_prerequisites() {
    let tree = TechnologyTree::new();
    for t in [
        TechnologyType::Agriculture,
        TechnologyType::Mining,
        TechnologyType::Forestry,
        TechnologyType::BasicConstruction,
    ] {
        let node = tree.get_technology(&t).unwrap();
        assert!(node.prerequisites.is_empty());
        assert_eq!(node.cost, 100);
        assert_eq!(node.unlock_effects.len(), 2);
    }
}
