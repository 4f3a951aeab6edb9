use cityrade_core::resources::{ResourceType, Resources};

#[test]
fn new_ledger_has_default_quantities() {
    let r = Resources::new();
    assert_eq!(r.get(&ResourceType::Gold), 100);
    assert_eq!(r.get(&ResourceType::Wood), 100);
    assert_eq!(r.get(&ResourceType::Stone), 50);
    assert_eq!(r.get(&ResourceType::Food), 200);
    assert_eq!(r.get(&ResourceType::Iron), 0);
    assert_eq!(r.get(&ResourceType::Crystal), 0);
    assert_eq!(r.get(&ResourceType::Population), 10);
    assert_eq!(r.get(&ResourceType::Energy), 50);
    assert_eq!(r.get_production_rate(&ResourceType::Wood), 8);
    assert_eq!(r.get_production_rate(&ResourceType::Population), 1);
}

#[test]
fn quantities_stay_nonnegative_through_any_sequence() {
    let mut r = Resources::new();
    r.add(&ResourceType::Gold, 5);
    assert!(!r.subtract(&ResourceType::Gold, 1000));
    assert_eq!(r.get(&ResourceType::Gold), 105);
    assert!(r.subtract(&ResourceType::Gold, 105));
    assert_eq!(r.get(&ResourceType::Gold), 0);
    assert!(!r.subtract(&ResourceType::Gold, 1));
    assert_eq!(r.get(&ResourceType::Gold), 0);
    let costs = vec![(ResourceType::Gold, 1)];
    assert!(!r.pay(&costs));
    assert_eq!(r.get(&ResourceType::Gold), 0);
}

#[test]
fn add_saturates_at_the_top() {
    let mut r = Resources::new();
    r.set(ResourceType::Iron, u32::MAX - 3);
    r.add(&ResourceType::Iron, 10);
    assert_eq!(r.get(&ResourceType::Iron), u32::MAX);
}

#[test]
fn subtract_exact_amount_reaches_zero() {
    let mut r = Resources::new();
    assert!(r.subtract(&ResourceType::Stone, 50));
    assert_eq!(r.get(&ResourceType::Stone), 0);
}

#[test]
fn pay_unaffordable_leaves_ledger_untouched() {
    let mut r = Resources::new();
    let before = r;
    let costs = vec![
        (ResourceType::Gold, 50),
        (ResourceType::Wood, 1_000_000),
    ];
    assert!(!r.can_afford(&costs));
    assert!(!r.pay(&costs));
    assert_eq!(r, before);
}

#[test]
fn pay_debits_every_line_item() {
    let mut r = Resources::new();
    let costs = vec![
        (ResourceType::Gold, 30),
        (ResourceType::Wood, 20),
        (ResourceType::Stone, 10),
    ];
    assert!(r.pay(&costs));
    assert_eq!(r.get(&ResourceType::Gold), 70);
    assert_eq!(r.get(&ResourceType::Wood), 80);
    assert_eq!(r.get(&ResourceType::Stone), 40);
}

#[test]
fn repeated_cost_lines_need_combined_affordability() {
    let mut r = Resources::new();
    // Gold starts at 100: two lines of 60 each are 120 together.
    let costs = vec![(ResourceType::Gold, 60), (ResourceType::Gold, 60)];
    assert!(!r.can_afford(&costs));
    assert!(!r.pay(&costs));
    assert_eq!(r.get(&ResourceType::Gold), 100);
    let costs2 = vec![(ResourceType::Gold, 60), (ResourceType::Gold, 40)];
    assert!(r.pay(&costs2));
    assert_eq!(r.get(&ResourceType::Gold), 0);
}

#[test]
fn empty_cost_list_is_free() {
    let mut r = Resources::new();
    let before = r;
    let costs: Vec<(ResourceType, u32)> = Vec::new();
    assert!(r.can_afford(&costs));
    assert!(r.pay(&costs));
    assert_eq!(r, before);
}

#[test]
fn update_production_applies_rates_and_clamps_at_zero() {
    let mut r = Resources::new();
    r.set(ResourceType::Crystal, 3);
    r.set_production_rate(ResourceType::Crystal, -10);
    r.set_production_rate(ResourceType::Gold, 7);
    r.update_production();
    assert_eq!(r.get(&ResourceType::Crystal), 0);
    assert_eq!(r.get(&ResourceType::Gold), 107);
    // Wood keeps its default rate of 8.
    assert_eq!(r.get(&ResourceType::Wood), 108);
}

#[test]
fn with_values_overrides_in_order() {
    let values = vec![
        (ResourceType::Gold, 7),
        (ResourceType::Gold, 9),
        (ResourceType::Energy, 0),
    ];
    let r = Resources::with_values(values);
    assert_eq!(r.get(&ResourceType::Gold), 9);
    assert_eq!(r.get(&ResourceType::Energy), 0);
    assert_eq!(r.get(&ResourceType::Food), 200);
}

#[test]
fn get_all_resources_lists_the_fixed_order() {
    let r = Resources::new();
    let all = r.get_all_resources();
    assert_eq!(all.len(), 8);
    assert_eq!(all[0], (ResourceType::Gold, 100));
    assert_eq!(all[7], (ResourceType::Energy, 50));
    let rates = r.get_all_production_rates();
    assert_eq!(rates.len(), 8);
    assert_eq!(rates[1], (ResourceType::Wood, 8));
}
