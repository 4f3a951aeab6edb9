//! Per-settlement resource ledger: a quantity and a signed production rate
//! for each resource kind. Quantities are unsigned, so a quantity can never
//! be negative; operations that would drive one below zero either fail
//! without mutating (`subtract`) or clamp at zero (`update_production`).

use vstd::prelude::*;

verus! {

/// The closed set of resource kinds a settlement tracks.
#[derive(Clone, Copy, Debug, PartialEq, Eq, Structural)]
pub enum ResourceType {
    Gold,
    Wood,
    Stone,
    Food,
    Iron,
    Crystal,
    Population,
    Energy,
}

impl ResourceType {
    pub open spec fn display_name_spec(self) -> Seq<char> {
        match self {
            ResourceType::Gold => "Gold"@,
            ResourceType::Wood => "Wood"@,
            ResourceType::Stone => "Stone"@,
            ResourceType::Food => "Food"@,
            ResourceType::Iron => "Iron"@,
            ResourceType::Crystal => "Crystal"@,
            ResourceType::Population => "Population"@,
            ResourceType::Energy => "Energy"@,
        }
    }

    pub fn display_name(&self) -> (r: &'static str)
        ensures
            r@ == self.display_name_spec(),
    {
        match self {
            ResourceType::Gold => "Gold",
            ResourceType::Wood => "Wood",
            ResourceType::Stone => "Stone",
            ResourceType::Food => "Food",
            ResourceType::Iron => "Iron",
            ResourceType::Crystal => "Crystal",
            ResourceType::Population => "Population",
            ResourceType::Energy => "Energy",
        }
    }
}

impl Default for ResourceType {
    fn default() -> (r: ResourceType)
        ensures
            r == ResourceType::Energy,
    {
        ResourceType::Energy
    }
}

/// Quantity saturating at the top of the `u32` range.
pub open spec fn sat_add_u32(a: u32, b: u32) -> u32 {
    if a + b > u32::MAX {
        u32::MAX
    } else {
        (a + b) as u32
    }
}

/// One production-rate application to one quantity: a positive rate adds
/// (saturating at `u32::MAX`), a negative rate subtracts clamping at zero.
pub open spec fn apply_rate(q: u32, rate: i64) -> u32 {
    if rate >= 0 {
        if q + rate > u32::MAX {
            u32::MAX
        } else {
            (q + rate) as u32
        }
    } else {
        if q + rate < 0 {
            0u32
        } else {
            (q + rate) as u32
        }
    }
}

/// The ledger: one quantity and one signed production rate per resource kind.
#[derive(Clone, Copy, Debug, PartialEq, Eq, Structural)]
pub struct Resources {
    pub gold: u32,
    pub wood: u32,
    pub stone: u32,
    pub food: u32,
    pub iron: u32,
    pub crystal: u32,
    pub population: u32,
    pub energy: u32,
    pub gold_rate: i64,
    pub wood_rate: i64,
    pub stone_rate: i64,
    pub food_rate: i64,
    pub iron_rate: i64,
    pub crystal_rate: i64,
    pub population_rate: i64,
    pub energy_rate: i64,
}

impl Resources {
    /// The stored quantity of one resource kind.
    pub open spec fn q(self, r: ResourceType) -> u32 {
        match r {
            ResourceType::Gold => self.gold,
            ResourceType::Wood => self.wood,
            ResourceType::Stone => self.stone,
            ResourceType::Food => self.food,
            ResourceType::Iron => self.iron,
            ResourceType::Crystal => self.crystal,
            ResourceType::Population => self.population,
            ResourceType::Energy => self.energy,
        }
    }

    /// The stored production rate of one resource kind.
    pub open spec fn prod(self, r: ResourceType) -> i64 {
        match r {
            ResourceType::Gold => self.gold_rate,
            ResourceType::Wood => self.wood_rate,
            ResourceType::Stone => self.stone_rate,
            ResourceType::Food => self.food_rate,
            ResourceType::Iron => self.iron_rate,
            ResourceType::Crystal => self.crystal_rate,
            ResourceType::Population => self.population_rate,
            ResourceType::Energy => self.energy_rate,
        }
    }

    /// The ledger with one quantity replaced.
    pub open spec fn with_q(self, r: ResourceType, v: u32) -> Resources {
        match r {
            ResourceType::Gold => Resources { gold: v, ..self },
            ResourceType::Wood => Resources { wood: v, ..self },
            ResourceType::Stone => Resources { stone: v, ..self },
            ResourceType::Food => Resources { food: v, ..self },
            ResourceType::Iron => Resources { iron: v, ..self },
            ResourceType::Crystal => Resources { crystal: v, ..self },
            ResourceType::Population => Resources { population: v, ..self },
            ResourceType::Energy => Resources { energy: v, ..self },
        }
    }

    /// The ledger with one production rate replaced.
    pub open spec fn with_prod(self, r: ResourceType, v: i64) -> Resources {
        match r {
            ResourceType::Gold => Resources { gold_rate: v, ..self },
            ResourceType::Wood => Resources { wood_rate: v, ..self },
            ResourceType::Stone => Resources { stone_rate: v, ..self },
            ResourceType::Food => Resources { food_rate: v, ..self },
            ResourceType::Iron => Resources { iron_rate: v, ..self },
            ResourceType::Crystal => Resources { crystal_rate: v, ..self },
            ResourceType::Population => Resources { population_rate: v, ..self },
            ResourceType::Energy => Resources { energy_rate: v, ..self },
        }
    }

    /// The starting ledger of a new settlement.
    pub open spec fn initial() -> Resources {
        Resources {
            gold: 100,
            wood: 100,
            stone: 50,
            food: 200,
            iron: 0,
            crystal: 0,
            population: 10,
            energy: 50,
            gold_rate: 5,
            wood_rate: 8,
            stone_rate: 3,
            food_rate: 10,
            iron_rate: 0,
            crystal_rate: 0,
            population_rate: 1,
            energy_rate: 2,
        }
    }

    pub fn new() -> (r: Resources)
        ensures
            r == Resources::initial(),
    {
        Resources {
            gold: 100,
            wood: 100,
            stone: 50,
            food: 200,
            iron: 0,
            crystal: 0,
            population: 10,
            energy: 50,
            gold_rate: 5,
            wood_rate: 8,
            stone_rate: 3,
            food_rate: 10,
            iron_rate: 0,
            crystal_rate: 0,
            population_rate: 1,
            energy_rate: 2,
        }
    }

    pub fn get(&self, resource: &ResourceType) -> (r: u32)
        ensures
            r == self.q(*resource),
    {
        match resource {
            ResourceType::Gold => self.gold,
            ResourceType::Wood => self.wood,
            ResourceType::Stone => self.stone,
            ResourceType::Food => self.food,
            ResourceType::Iron => self.iron,
            ResourceType::Crystal => self.crystal,
            ResourceType::Population => self.population,
            ResourceType::Energy => self.energy,
        }
    }

    pub fn set(&mut self, resource: ResourceType, amount: u32)
        ensures
            *final(self) == old(self).with_q(resource, amount),
    {
        match resource {
            ResourceType::Gold => self.gold = amount,
            ResourceType::Wood => self.wood = amount,
            ResourceType::Stone => self.stone = amount,
            ResourceType::Food => self.food = amount,
            ResourceType::Iron => self.iron = amount,
            ResourceType::Crystal => self.crystal = amount,
            ResourceType::Population => self.population = amount,
            ResourceType::Energy => self.energy = amount,
        }
    }

    /// Adds to one quantity, saturating at `u32::MAX`.
    pub fn add(&mut self, resource: &ResourceType, amount: u32)
        ensures
            *final(self) == old(self).with_q(
                *resource,
                sat_add_u32(old(self).q(*resource), amount),
            ),
    {
        let current = self.get(resource);
        let updated = if current > u32::MAX - amount {
            u32::MAX
        } else {
            current + amount
        };
        self.set(*resource, updated);
    }

    /// Subtracts from one quantity; fails without any mutation when the
    /// stored quantity is smaller than `amount`.
    pub fn subtract(&mut self, resource: &ResourceType, amount: u32) -> (ok: bool)
        ensures
            ok == (old(self).q(*resource) >= amount),
            ok ==> *final(self) == old(self).with_q(
                *resource,
                (old(self).q(*resource) - amount) as u32,
            ),
            !ok ==> *final(self) == *old(self),
    {
        let current = self.get(resource);
        if current >= amount {
            self.set(*resource, current - amount);
            true
        } else {
            false
        }
    }

    pub fn get_production_rate(&self, resource: &ResourceType) -> (r: i64)
        ensures
            r == self.prod(*resource),
    {
        match resource {
            ResourceType::Gold => self.gold_rate,
            ResourceType::Wood => self.wood_rate,
            ResourceType::Stone => self.stone_rate,
            ResourceType::Food => self.food_rate,
            ResourceType::Iron => self.iron_rate,
            ResourceType::Crystal => self.crystal_rate,
            ResourceType::Population => self.population_rate,
            ResourceType::Energy => self.energy_rate,
        }
    }

    pub fn set_production_rate(&mut self, resource: ResourceType, rate: i64)
        ensures
            *final(self) == old(self).with_prod(resource, rate),
    {
        match resource {
            ResourceType::Gold => self.gold_rate = rate,
            ResourceType::Wood => self.wood_rate = rate,
            ResourceType::Stone => self.stone_rate = rate,
            ResourceType::Food => self.food_rate = rate,
            ResourceType::Iron => self.iron_rate = rate,
            ResourceType::Crystal => self.crystal_rate = rate,
            ResourceType::Population => self.population_rate = rate,
            ResourceType::Energy => self.energy_rate = rate,
        }
    }

    /// The ledger after one production step: every quantity has its rate
    /// applied, clamped at zero below and `u32::MAX` above.
    pub open spec fn after_production(self) -> Resources {
        Resources {
            gold: apply_rate(self.gold, self.gold_rate),
            wood: apply_rate(self.wood, self.wood_rate),
            stone: apply_rate(self.stone, self.stone_rate),
            food: apply_rate(self.food, self.food_rate),
            iron: apply_rate(self.iron, self.iron_rate),
            crystal: apply_rate(self.crystal, self.crystal_rate),
            population: apply_rate(self.population, self.population_rate),
            energy: apply_rate(self.energy, self.energy_rate),
            ..self
        }
    }

    /// Applies one signed delta to one quantity, clamping at zero below and
    /// `u32::MAX` above, as the ledger invariant asks.
    pub(crate) fn apply_signed(&mut self, resource: &ResourceType, amount: i64)
        ensures
            *final(self) == old(self).with_q(
                *resource,
                apply_rate(old(self).q(*resource), amount),
            ),
    {
        let q = self.get(resource);
        let updated = apply_rate_exec(q, amount);
        self.set(*resource, updated);
    }

    /// Applies every production rate once. A shortfall floors the quantity
    /// at zero; it never fails.
    pub fn update_production(&mut self)
        ensures
            *final(self) == old(self).after_production(),
    {
        self.gold = apply_rate_exec(self.gold, self.gold_rate);
        self.wood = apply_rate_exec(self.wood, self.wood_rate);
        self.stone = apply_rate_exec(self.stone, self.stone_rate);
        self.food = apply_rate_exec(self.food, self.food_rate);
        self.iron = apply_rate_exec(self.iron, self.iron_rate);
        self.crystal = apply_rate_exec(self.crystal, self.crystal_rate);
        self.population = apply_rate_exec(self.population, self.population_rate);
        self.energy = apply_rate_exec(self.energy, self.energy_rate);
    }
}

/// Combined amount that a cost list asks of one resource kind: repeated
/// entries of the same kind count together.
pub open spec fn cost_sum(costs: Seq<(ResourceType, u32)>, t: ResourceType) -> int
    decreases costs.len(),
{
    if costs.len() == 0 {
        0
    } else {
        cost_sum(costs.drop_last(), t) + if costs.last().0 == t {
            costs.last().1 as int
        } else {
            0
        }
    }
}

/// How `with_q` reads back: the replaced kind holds the new value, every
/// other kind and every rate is untouched.
pub proof fn lemma_with_q(s: Resources, r: ResourceType, v: u32)
    ensures
        forall|t: ResourceType| s.with_q(r, v).q(t) == (if t == r { v } else { s.q(t) }),
        forall|t: ResourceType| s.with_q(r, v).prod(t) == s.prod(t),
{
    match r {
        ResourceType::Gold => {}
        ResourceType::Wood => {}
        ResourceType::Stone => {}
        ResourceType::Food => {}
        ResourceType::Iron => {}
        ResourceType::Crystal => {}
        ResourceType::Population => {}
        ResourceType::Energy => {}
    }
}

pub proof fn lemma_cost_sum_nonneg(costs: Seq<(ResourceType, u32)>, t: ResourceType)
    ensures
        cost_sum(costs, t) >= 0,
    decreases costs.len(),
{
    if costs.len() > 0 {
        lemma_cost_sum_nonneg(costs.drop_last(), t);
    }
}

pub proof fn lemma_cost_sum_take_succ(costs: Seq<(ResourceType, u32)>, i: int)
    requires
        0 <= i < costs.len(),
    ensures
        forall|t: ResourceType|
            cost_sum(costs.take(i + 1), t) == cost_sum(costs.take(i), t) + if costs[i].0 == t {
                costs[i].1 as int
            } else {
                0
            },
{
    assert(costs.take(i + 1).drop_last() =~= costs.take(i));
    assert(costs.take(i + 1).last() == costs[i]);
}

pub proof fn lemma_cost_sum_take_le(costs: Seq<(ResourceType, u32)>, i: int, t: ResourceType)
    requires
        0 <= i <= costs.len(),
    ensures
        cost_sum(costs.take(i), t) <= cost_sum(costs, t),
    decreases costs.len() - i,
{
    if i == costs.len() {
        assert(costs.take(i) =~= costs);
    } else {
        lemma_cost_sum_take_succ(costs, i);
        lemma_cost_sum_take_le(costs, i + 1, t);
    }
}

/// Combined amount that a cost list asks of one resource kind, computed.
fn type_cost_sum(costs: &Vec<(ResourceType, u32)>, t: ResourceType) -> (r: u128)
    ensures
        r == cost_sum(costs@, t),
{
    let mut acc: u128 = 0;
    let mut i: usize = 0;
    while i < costs.len()
        invariant
            0 <= i <= costs@.len(),
            acc == cost_sum(costs@.take(i as int), t),
            acc <= i * (u32::MAX as int),
        decreases costs@.len() - i,
    {
        let (rt, amt) = costs[i];
        proof {
            lemma_cost_sum_take_succ(costs@, i as int);
        }
        if rt == t {
            acc = acc + amt as u128;
        }
        i = i + 1;
    }
    proof {
        assert(costs@.take(costs@.len() as int) =~= costs@);
    }
    acc
}

impl Resources {
    /// Whether every combined per-kind amount in a cost list is covered by
    /// the stored quantities.
    pub open spec fn can_afford_spec(self, costs: Seq<(ResourceType, u32)>) -> bool {
        forall|t: ResourceType| cost_sum(costs, t) <= self.q(t)
    }

    /// True iff the ledger covers the combined per-kind amounts of `costs`;
    /// repeated entries of one kind must be affordable together.
    pub fn can_afford(&self, costs: &Vec<(ResourceType, u32)>) -> (r: bool)
        ensures
            r == self.can_afford_spec(costs@),
    {
        let r = type_cost_sum(costs, ResourceType::Gold) <= self.gold as u128
            && type_cost_sum(costs, ResourceType::Wood) <= self.wood as u128
            && type_cost_sum(costs, ResourceType::Stone) <= self.stone as u128
            && type_cost_sum(costs, ResourceType::Food) <= self.food as u128
            && type_cost_sum(costs, ResourceType::Iron) <= self.iron as u128
            && type_cost_sum(costs, ResourceType::Crystal) <= self.crystal as u128
            && type_cost_sum(costs, ResourceType::Population) <= self.population as u128
            && type_cost_sum(costs, ResourceType::Energy) <= self.energy as u128;
        proof {
            if r {
                assert forall|t: ResourceType| cost_sum(costs@, t) <= self.q(t) by {
                    match t {
                        ResourceType::Gold => {},
                        ResourceType::Wood => {},
                        ResourceType::Stone => {},
                        ResourceType::Food => {},
                        ResourceType::Iron => {},
                        ResourceType::Crystal => {},
                        ResourceType::Population => {},
                        ResourceType::Energy => {},
                    }
                }
            }
        }
        r
    }

    /// Pays a cost list atomically: when the list is not affordable the
    /// ledger is left exactly as it was; when it is, every line item is
    /// debited and the rates are untouched.
    pub fn pay(&mut self, costs: &Vec<(ResourceType, u32)>) -> (ok: bool)
        ensures
            ok == old(self).can_afford_spec(costs@),
            !ok ==> *final(self) == *old(self),
            ok ==> forall|t: ResourceType|
                final(self).q(t) == old(self).q(t) - cost_sum(costs@, t),
            ok ==> forall|t: ResourceType| final(self).prod(t) == old(self).prod(t),
    {
        if !self.can_afford(costs) {
            return false;
        }
        let ghost orig = *self;
        let mut i: usize = 0;
        while i < costs.len()
            invariant
                0 <= i <= costs@.len(),
                orig.can_afford_spec(costs@),
                forall|t: ResourceType|
                    self.q(t) == orig.q(t) - cost_sum(costs@.take(i as int), t),
                forall|t: ResourceType| self.prod(t) == orig.prod(t),
            decreases costs@.len() - i,
        {
            let (rt, amt) = costs[i];
            let ghost prev = *self;
            proof {
                lemma_cost_sum_take_succ(costs@, i as int);
                lemma_cost_sum_take_le(costs@, i as int + 1, rt);
                lemma_cost_sum_nonneg(costs@.take(i as int), rt);
            }
            let debited = self.subtract(&rt, amt);
            assert(debited);
            proof {
                lemma_with_q(prev, rt, (prev.q(rt) - amt) as u32);
            }
            i = i + 1;
        }
        proof {
            assert(costs@.take(costs@.len() as int) =~= costs@);
        }
        true
    }
}

/// Quantities are unsigned, so no sequence of `add`, `subtract`, `pay`, or
/// production updates can ever leave a stored quantity below zero.
pub proof fn lemma_quantity_never_negative(r: Resources, t: ResourceType)
    ensures
        r.q(t) >= 0,
{
}

/// A ledger after a list of `set` overrides has been applied in order;
/// a later entry for the same kind wins.
pub open spec fn apply_values(base: Resources, values: Seq<(ResourceType, u32)>) -> Resources
    decreases values.len(),
{
    if values.len() == 0 {
        base
    } else {
        apply_values(base, values.drop_last()).with_q(values.last().0, values.last().1)
    }
}

impl Resources {
    /// The starting ledger with the given quantities written over it, in
    /// order; rates keep their defaults.
    pub fn with_values(values: Vec<(ResourceType, u32)>) -> (r: Resources)
        ensures
            r == apply_values(Resources::initial(), values@),
    {
        let mut resources = Resources::new();
        let mut i: usize = 0;
        while i < values.len()
            invariant
                0 <= i <= values@.len(),
                resources == apply_values(Resources::initial(), values@.take(i as int)),
            decreases values@.len() - i,
        {
            let (rt, amount) = values[i];
            proof {
                assert(values@.take(i as int + 1).drop_last() =~= values@.take(i as int));
                assert(values@.take(i as int + 1).last() == values@[i as int]);
            }
            resources.set(rt, amount);
            i = i + 1;
        }
        proof {
            assert(values@.take(values@.len() as int) =~= values@);
        }
        resources
    }

    /// Every quantity as a `(kind, amount)` pair, in the fixed kind order.
    pub open spec fn all_resources_spec(self) -> Seq<(ResourceType, u32)> {
        seq![
            (ResourceType::Gold, self.gold),
            (ResourceType::Wood, self.wood),
            (ResourceType::Stone, self.stone),
            (ResourceType::Food, self.food),
            (ResourceType::Iron, self.iron),
            (ResourceType::Crystal, self.crystal),
            (ResourceType::Population, self.population),
            (ResourceType::Energy, self.energy),
        ]
    }

    pub fn get_all_resources(&self) -> (r: Vec<(ResourceType, u32)>)
        ensures
            r@ == self.all_resources_spec(),
    {
        let mut r: Vec<(ResourceType, u32)> = Vec::new();
        r.push((ResourceType::Gold, self.gold));
        r.push((ResourceType::Wood, self.wood));
        r.push((ResourceType::Stone, self.stone));
        r.push((ResourceType::Food, self.food));
        r.push((ResourceType::Iron, self.iron));
        r.push((ResourceType::Crystal, self.crystal));
        r.push((ResourceType::Population, self.population));
        r.push((ResourceType::Energy, self.energy));
        proof {
            assert(r@ =~= self.all_resources_spec());
        }
        r
    }

    /// Every production rate as a `(kind, rate)` pair, in the fixed kind
    /// order.
    pub open spec fn all_production_rates_spec(self) -> Seq<(ResourceType, i64)> {
        seq![
            (ResourceType::Gold, self.gold_rate),
            (ResourceType::Wood, self.wood_rate),
            (ResourceType::Stone, self.stone_rate),
            (ResourceType::Food, self.food_rate),
            (ResourceType::Iron, self.iron_rate),
            (ResourceType::Crystal, self.crystal_rate),
            (ResourceType::Population, self.population_rate),
            (ResourceType::Energy, self.energy_rate),
        ]
    }

    pub fn get_all_production_rates(&self) -> (r: Vec<(ResourceType, i64)>)
        ensures
            r@ == self.all_production_rates_spec(),
    {
        let mut r: Vec<(ResourceType, i64)> = Vec::new();
        r.push((ResourceType::Gold, self.gold_rate));
        r.push((ResourceType::Wood, self.wood_rate));
        r.push((ResourceType::Stone, self.stone_rate));
        r.push((ResourceType::Food, self.food_rate));
        r.push((ResourceType::Iron, self.iron_rate));
        r.push((ResourceType::Crystal, self.crystal_rate));
        r.push((ResourceType::Population, self.population_rate));
        r.push((ResourceType::Energy, self.energy_rate));
        proof {
            assert(r@ =~= self.all_production_rates_spec());
        }
        r
    }
}

/// Executable counterpart of `apply_rate`.
fn apply_rate_exec(q: u32, rate: i64) -> (r: u32)
    ensures
        r == apply_rate(q, rate),
{
    if rate >= 0 {
        let room = (u32::MAX - q) as i64;
        if rate > room {
            u32::MAX
        } else {
            q + (rate as u32)
        }
    } else {
        let deficit = if rate == i64::MIN {
            // |i64::MIN| exceeds i64::MAX; any quantity clamps to zero.
            u32::MAX as i64
        } else {
            -rate
        };
        if deficit >= q as i64 {
            0
        } else {
            q - (deficit as u32)
        }
    }
}

} // verus!
