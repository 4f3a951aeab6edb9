//! The city aggregate: a ledger, a set of buildings, derived stats, a
//! scalar population counter, a terrain tag, and the tick pipeline that
//! advances them one discrete step at a time.

use vstd::prelude::*;
use crate::building::{
    effect_sum, effect_sum_exec, lemma_production_effect_bounded, Building, BuildingType,
};
use crate::clock;
use crate::error::GameError;
use crate::ids;
use crate::resources::{apply_rate, cost_sum, ResourceType, Resources};
use crate::rng;

verus! {

/// The closed set of terrain tags a settlement can sit on.
#[derive(Clone, Copy, Debug, PartialEq, Eq, Structural)]
pub enum Terrain {
    Plain,
    Forest,
    Mountain,
    Desert,
    Swamp,
    Water,
    Snow,
}

impl Terrain {
    pub open spec fn display_name_spec(self) -> Seq<char> {
        match self {
            Terrain::Plain => "Plain"@,
            Terrain::Forest => "Forest"@,
            Terrain::Mountain => "Mountain"@,
            Terrain::Desert => "Desert"@,
            Terrain::Swamp => "Swamp"@,
            Terrain::Water => "Water"@,
            Terrain::Snow => "Snow"@,
        }
    }

    pub fn display_name(&self) -> (r: &'static str)
        ensures
            r@ == self.display_name_spec(),
    {
        match self {
            Terrain::Plain => "Plain",
            Terrain::Forest => "Forest",
            Terrain::Mountain => "Mountain",
            Terrain::Desert => "Desert",
            Terrain::Swamp => "Swamp",
            Terrain::Water => "Water",
            Terrain::Snow => "Snow",
        }
    }

    /// Multiplicative adjustment this terrain applies to one resource's
    /// production rate, in percent; 100 where the terrain says nothing.
    pub open spec fn modifier_spec(self, r: ResourceType) -> u32 {
        match self {
            Terrain::Plain => match r {
                ResourceType::Food => 120u32,
                _ => 100u32,
            },
            Terrain::Forest => match r {
                ResourceType::Wood => 150u32,
                ResourceType::Food => 80u32,
                _ => 100u32,
            },
            Terrain::Mountain => match r {
                ResourceType::Stone => 150u32,
                ResourceType::Iron => 130u32,
                ResourceType::Crystal => 120u32,
                ResourceType::Food => 60u32,
                _ => 100u32,
            },
            Terrain::Desert => match r {
                ResourceType::Crystal => 130u32,
                ResourceType::Food => 50u32,
                ResourceType::Wood => 30u32,
                _ => 100u32,
            },
            Terrain::Swamp => match r {
                ResourceType::Wood => 110u32,
                ResourceType::Food => 70u32,
                _ => 100u32,
            },
            Terrain::Water => match r {
                ResourceType::Food => 130u32,
                ResourceType::Gold => 110u32,
                _ => 100u32,
            },
            Terrain::Snow => match r {
                ResourceType::Crystal => 140u32,
                ResourceType::Food => 40u32,
                ResourceType::Energy => 80u32,
                _ => 100u32,
            },
        }
    }

    /// The terrain's rate modifier for one resource kind, in percent.
    pub fn resource_modifier(&self, resource: &ResourceType) -> (m: u32)
        ensures
            m == self.modifier_spec(*resource),
            30 <= m <= 150,
    {
        match self {
            Terrain::Plain => match resource {
                ResourceType::Food => 120,
                _ => 100,
            },
            Terrain::Forest => match resource {
                ResourceType::Wood => 150,
                ResourceType::Food => 80,
                _ => 100,
            },
            Terrain::Mountain => match resource {
                ResourceType::Stone => 150,
                ResourceType::Iron => 130,
                ResourceType::Crystal => 120,
                ResourceType::Food => 60,
                _ => 100,
            },
            Terrain::Desert => match resource {
                ResourceType::Crystal => 130,
                ResourceType::Food => 50,
                ResourceType::Wood => 30,
                _ => 100,
            },
            Terrain::Swamp => match resource {
                ResourceType::Wood => 110,
                ResourceType::Food => 70,
                _ => 100,
            },
            Terrain::Water => match resource {
                ResourceType::Food => 130,
                ResourceType::Gold => 110,
                _ => 100,
            },
            Terrain::Snow => match resource {
                ResourceType::Crystal => 140,
                ResourceType::Food => 40,
                ResourceType::Energy => 80,
                _ => 100,
            },
        }
    }
}

/// Derived city statistics, recomputed from the buildings and the
/// population each tick.
#[derive(Clone, Copy, Debug, PartialEq, Eq, Structural)]
pub struct CityStats {
    pub happiness: u32,
    pub defense: u32,
    pub culture: u32,
    pub max_population: u32,
    pub max_buildings: u32,
}

impl CityStats {
    /// The fixed defaults every stats pass starts from.
    pub open spec fn base() -> CityStats {
        CityStats { happiness: 50, defense: 10, culture: 0, max_population: 50, max_buildings: 5 }
    }
}

impl Default for CityStats {
    fn default() -> (r: CityStats)
        ensures
            r == CityStats::base(),
    {
        CityStats { happiness: 50, defense: 10, culture: 0, max_population: 50, max_buildings: 5 }
    }
}

/// `a + delta` capped at `u32::MAX`; `delta` must not be negative.
pub open spec fn add_capped(a: u32, delta: int) -> u32 {
    if a + delta > u32::MAX {
        u32::MAX
    } else {
        (a + delta) as u32
    }
}

/// `a - delta` floored at zero; `delta` must not be negative.
pub open spec fn sub_floored(a: u32, delta: int) -> u32 {
    if delta >= a {
        0u32
    } else {
        (a - delta) as u32
    }
}

pub(crate) fn add_capped_u32(a: u32, delta: u64) -> (r: u32)
    ensures
        r == add_capped(a, delta as int),
{
    if delta > (u32::MAX - a) as u64 {
        u32::MAX
    } else {
        a + (delta as u32)
    }
}

pub(crate) fn sub_floored_u32(a: u32, delta: u64) -> (r: u32)
    ensures
        r == sub_floored(a, delta as int),
{
    if delta >= a as u64 {
        0
    } else {
        a - (delta as u32)
    }
}

/// The city aggregate root. It owns its buildings by value; a building id
/// is unique within its city and comes from the `next_building_id` counter.
#[derive(Debug)]
pub struct City {
    pub id: String,
    pub name: String,
    pub owner_id: String,
    /// Scalar population counter driving the housing and building caps.
    pub population: u32,
    pub buildings: Vec<Building>,
    pub resources: Resources,
    pub stats: CityStats,
    pub terrain: Terrain,
    pub position: (i32, i32),
    /// Seconds since the Unix epoch.
    pub created_at: i64,
    /// Seconds since the Unix epoch; stamped by every tick.
    pub last_updated: i64,
    /// The id the next new building will take.
    pub next_building_id: u64,
}

/// Whether any building of the list sits at the given position.
pub open spec fn occupied_spec(bs: Seq<Building>, position: (i32, i32)) -> bool {
    exists|i: int| 0 <= i < bs.len() && bs[i].position == position
}

/// Whether any building of the list carries the given id.
pub open spec fn has_building_spec(bs: Seq<Building>, id: u64) -> bool {
    exists|i: int| 0 <= i < bs.len() && bs[i].id == id
}

impl City {
    /// Well-formedness: building ids and positions are unique, ids stay
    /// below the id counter, and every level is at least 1.
    pub open spec fn wf(self) -> bool {
        let bs = self.buildings@;
        &&& forall|i: int, j: int|
            0 <= i < j < bs.len() ==> #[trigger] bs[i].id != #[trigger] bs[j].id
        &&& forall|i: int, j: int|
            0 <= i < j < bs.len() ==> #[trigger] bs[i].position != #[trigger] bs[j].position
        &&& forall|i: int| 0 <= i < bs.len() ==> #[trigger] bs[i].id < self.next_building_id
        &&& forall|i: int| 0 <= i < bs.len() ==> #[trigger] bs[i].level >= 1
    }

    /// A new settlement: ten inhabitants, the starting ledger, base stats,
    /// no buildings. The id comes from the id generator and the timestamps
    /// from the clock; everything else is pinned.
    pub fn new(name: String, owner_id: String, terrain: Terrain, position: (i32, i32)) -> (c: City)
        ensures
            c.wf(),
            c.name == name,
            c.owner_id == owner_id,
            c.population == 10,
            c.buildings@.len() == 0,
            c.resources == Resources::initial(),
            c.stats == CityStats::base(),
            c.terrain == terrain,
            c.position == position,
            c.created_at == c.last_updated,
            c.next_building_id == 0,
    {
        let now = clock::now_seconds();
        City {
            id: ids::fresh_city_id(),
            name,
            owner_id,
            population: 10,
            buildings: Vec::new(),
            resources: Resources::new(),
            stats: CityStats::default(),
            terrain,
            position,
            created_at: now,
            last_updated: now,
            next_building_id: 0,
        }
    }

    /// Raises the population, capping at the housing limit of the current
    /// stats (a population already above the limit is not grown further).
    pub fn increase_population(&mut self, amount: u32)
        ensures
            *final(self) == (City {
                population: if add_capped(old(self).population, amount as int)
                    > old(self).stats.max_population {
                    if old(self).population > old(self).stats.max_population {
                        old(self).population
                    } else {
                        old(self).stats.max_population
                    }
                } else {
                    add_capped(old(self).population, amount as int)
                },
                ..*old(self)
            }),
    {
        let grown = add_capped_u32(self.population, amount as u64);
        if grown > self.stats.max_population {
            if self.population <= self.stats.max_population {
                self.population = self.stats.max_population;
            }
        } else {
            self.population = grown;
        }
    }

    /// Lowers the population, flooring at zero.
    pub fn decrease_population(&mut self, amount: u32)
        ensures
            *final(self) == (City {
                population: sub_floored(old(self).population, amount as int),
                ..*old(self)
            }),
    {
        self.population = sub_floored_u32(self.population, amount as u64);
    }

    /// Deletes a building by id, with no refund. Fails, changing nothing,
    /// iff no building carries the id.
    pub fn remove_building(&mut self, building_id: u64) -> (r: Result<(), GameError>)
        requires
            old(self).wf(),
        ensures
            final(self).wf(),
            !has_building_spec(old(self).buildings@, building_id) ==> r == Err::<(), GameError>(
                GameError::BuildingNotFound,
            ) && *final(self) == *old(self),
            has_building_spec(old(self).buildings@, building_id) ==> r == Ok::<(), GameError>(())
                && exists|i: int|
                0 <= i < old(self).buildings@.len() && old(self).buildings@[i].id == building_id
                    && *final(self) == (City {
                    buildings: final(self).buildings,
                    ..*old(self)
                }) && final(self).buildings@ == old(self).buildings@.remove(i),
    {
        let n = self.buildings.len();
        let mut i: usize = 0;
        while i < n
            invariant
                *self == *old(self),
                old(self).wf(),
                0 <= i <= n == self.buildings@.len(),
                forall|j: int| 0 <= j < i ==> self.buildings@[j].id != building_id,
            decreases n - i,
        {
            if self.buildings[i].id == building_id {
                proof {
                    let bs = old(self).buildings@;
                    let k = i as int;
                    let bs2 = bs.remove(k);
                    assert(bs2.len() == bs.len() - 1);
                    assert forall|j: int| 0 <= j < bs2.len() implies bs2[j] == (if j < k {
                        bs[j]
                    } else {
                        bs[j + 1]
                    }) by {
                        if j < k {
                            assert(bs2[j] == bs[j]);
                        } else {
                            assert(bs2[j] == bs[j + 1]);
                        }
                    }
                }
                self.buildings.remove(i);
                return Ok(());
            }
            i = i + 1;
        }
        Err(GameError::BuildingNotFound)
    }
}

/// Fixed base production rate of one resource kind, before buildings and
/// terrain weigh in.
pub open spec fn base_rate_spec(t: ResourceType) -> int {
    match t {
        ResourceType::Gold => 5,
        ResourceType::Wood => 3,
        ResourceType::Stone => 2,
        ResourceType::Food => 8,
        _ => 0,
    }
}

fn base_rate(t: ResourceType) -> (r: i64)
    ensures
        r == base_rate_spec(t),
{
    match t {
        ResourceType::Gold => 5,
        ResourceType::Wood => 3,
        ResourceType::Stone => 2,
        ResourceType::Food => 8,
        _ => 0,
    }
}

/// Combined signed delta every building of the list applies to one
/// resource kind per tick.
pub open spec fn building_effects_sum(bs: Seq<Building>, t: ResourceType) -> int
    decreases bs.len(),
{
    if bs.len() == 0 {
        0
    } else {
        building_effects_sum(bs.drop_last(), t) + effect_sum(
            bs.last().building_type.production_effect_spec(bs.last().level),
            t,
        )
    }
}

pub proof fn lemma_building_effects_sum_take_succ(bs: Seq<Building>, i: int)
    requires
        0 <= i < bs.len(),
    ensures
        forall|t: ResourceType|
            building_effects_sum(bs.take(i + 1), t) == building_effects_sum(bs.take(i), t)
                + effect_sum(bs[i].building_type.production_effect_spec(bs[i].level), t),
{
    assert(bs.take(i + 1).drop_last() =~= bs.take(i));
    assert(bs.take(i + 1).last() == bs[i]);
}

/// Truncating-toward-zero application of a percent modifier.
pub open spec fn trunc_mul_pct(x: int, pct: int) -> int {
    if x >= 0 {
        x * pct / 100
    } else {
        -((-x) * pct / 100)
    }
}

/// Clamp into the `i64` range.
pub open spec fn clamp_i64(x: int) -> i64 {
    if x > i64::MAX {
        i64::MAX
    } else if x < i64::MIN {
        i64::MIN
    } else {
        x as i64
    }
}

/// The production rate one tick writes for one resource kind: the base
/// rate plus every building's delta, scaled by the terrain modifier with
/// truncation toward zero, clamped into the `i64` range.
pub open spec fn expected_rate(c: City, t: ResourceType) -> i64 {
    clamp_i64(
        trunc_mul_pct(
            base_rate_spec(t) + building_effects_sum(c.buildings@, t),
            c.terrain.modifier_spec(t) as int,
        ),
    )
}

/// The city ledger after one production phase: every rate rewritten from
/// the buildings and terrain, then applied once to the quantities.
pub open spec fn produced_resources(c: City) -> Resources {
    (Resources {
        gold_rate: expected_rate(c, ResourceType::Gold),
        wood_rate: expected_rate(c, ResourceType::Wood),
        stone_rate: expected_rate(c, ResourceType::Stone),
        food_rate: expected_rate(c, ResourceType::Food),
        iron_rate: expected_rate(c, ResourceType::Iron),
        crystal_rate: expected_rate(c, ResourceType::Crystal),
        population_rate: expected_rate(c, ResourceType::Population),
        energy_rate: expected_rate(c, ResourceType::Energy),
        ..c.resources
    }).after_production()
}

/// Base rate plus the summed building deltas for one resource kind.
fn city_total_rate(buildings: &Vec<Building>, t: ResourceType) -> (r: i128)
    ensures
        r == base_rate_spec(t) + building_effects_sum(buildings@, t),
        -0x1_0000_0000_0000_0000_0000_0000_0000 <= r <= 0x1_0000_0000_0000_0000_0000_0000_0000,
{
    let mut acc: i128 = base_rate(t) as i128;
    let mut i: usize = 0;
    while i < buildings.len()
        invariant
            0 <= i <= buildings@.len(),
            acc == base_rate_spec(t) + building_effects_sum(buildings@.take(i as int), t),
            -10 - (i as int) * 0x100_0000_0000 <= acc <= 10 + (i as int) * 0x100_0000_0000,
        decreases buildings@.len() - i,
    {
        let effects = buildings[i].production_effect();
        let contribution = effect_sum_exec(&effects, t);
        proof {
            lemma_building_effects_sum_take_succ(buildings@, i as int);
            lemma_production_effect_bounded(
                buildings@[i as int].building_type,
                buildings@[i as int].level,
                t,
            );
        }
        acc = acc + contribution;
        i = i + 1;
    }
    proof {
        assert(buildings@.take(buildings@.len() as int) =~= buildings@);
    }
    acc
}

/// Applies the terrain percent modifier with truncation toward zero and
/// clamps the result into the `i64` range.
fn finished_rate(total: i128, pct: u32) -> (r: i64)
    requires
        -0x1_0000_0000_0000_0000_0000_0000_0000 <= total <= 0x1_0000_0000_0000_0000_0000_0000_0000,
        pct <= 150,
    ensures
        r == clamp_i64(trunc_mul_pct(total as int, pct as int)),
{
    let p = pct as i128;
    proof {
        assert(-0x96_0000_0000_0000_0000_0000_0000_0000 <= (total as int) * (p as int)
            <= 0x96_0000_0000_0000_0000_0000_0000_0000) by (nonlinear_arith)
            requires
                -0x1_0000_0000_0000_0000_0000_0000_0000 <= total as int
                    <= 0x1_0000_0000_0000_0000_0000_0000_0000,
                0 <= p as int <= 150,
        ;
        assert(-0x96_0000_0000_0000_0000_0000_0000_0000 <= (-(total as int)) * (p as int)
            <= 0x96_0000_0000_0000_0000_0000_0000_0000) by (nonlinear_arith)
            requires
                -0x1_0000_0000_0000_0000_0000_0000_0000 <= total as int
                    <= 0x1_0000_0000_0000_0000_0000_0000_0000,
                0 <= p as int <= 150,
        ;
    }
    let scaled: i128 = if total >= 0 {
        (total * p) / 100
    } else {
        -(((-total) * p) / 100)
    };
    if scaled > i64::MAX as i128 {
        i64::MAX
    } else if scaled < i64::MIN as i128 {
        i64::MIN
    } else {
        scaled as i64
    }
}

/// One building's contribution to the derived stats.
pub open spec fn apply_building_stats(st: CityStats, b: Building) -> CityStats {
    match b.building_type {
        BuildingType::Residential => CityStats {
            max_population: add_capped(st.max_population, 10 * b.level),
            ..st
        },
        BuildingType::Temple => CityStats {
            happiness: add_capped(st.happiness, 5 * b.level),
            culture: add_capped(st.culture, 3 * b.level),
            ..st
        },
        BuildingType::Wall => CityStats { defense: add_capped(st.defense, 20 * b.level), ..st },
        BuildingType::Laboratory => CityStats {
            culture: add_capped(st.culture, 5 * b.level),
            ..st
        },
        BuildingType::Barracks => CityStats {
            defense: add_capped(st.defense, 10 * b.level),
            happiness: sub_floored(st.happiness, 2 * b.level),
            ..st
        },
        _ => st,
    }
}

pub open spec fn fold_stats(st: CityStats, bs: Seq<Building>) -> CityStats
    decreases bs.len(),
{
    if bs.len() == 0 {
        st
    } else {
        apply_building_stats(fold_stats(st, bs.drop_last()), bs.last())
    }
}

/// The stats one tick derives: the base defaults folded over every
/// building, then the building cap recomputed from the population.
pub open spec fn expected_stats(c: City) -> CityStats {
    CityStats {
        max_buildings: (5 + c.population / 20) as u32,
        ..fold_stats(CityStats::base(), c.buildings@)
    }
}

impl City {
    /// Production phase of the tick: rewrites every production rate from
    /// the fixed base rates, the buildings, and the terrain modifier, then
    /// applies the rates once to the stored quantities.
    pub fn update_resource_production(&mut self)
        ensures
            *final(self) == (City { resources: produced_resources(*old(self)), ..*old(self) }),
    {
        let gold = finished_rate(
            city_total_rate(&self.buildings, ResourceType::Gold),
            self.terrain.resource_modifier(&ResourceType::Gold),
        );
        let wood = finished_rate(
            city_total_rate(&self.buildings, ResourceType::Wood),
            self.terrain.resource_modifier(&ResourceType::Wood),
        );
        let stone = finished_rate(
            city_total_rate(&self.buildings, ResourceType::Stone),
            self.terrain.resource_modifier(&ResourceType::Stone),
        );
        let food = finished_rate(
            city_total_rate(&self.buildings, ResourceType::Food),
            self.terrain.resource_modifier(&ResourceType::Food),
        );
        let iron = finished_rate(
            city_total_rate(&self.buildings, ResourceType::Iron),
            self.terrain.resource_modifier(&ResourceType::Iron),
        );
        let crystal = finished_rate(
            city_total_rate(&self.buildings, ResourceType::Crystal),
            self.terrain.resource_modifier(&ResourceType::Crystal),
        );
        let population = finished_rate(
            city_total_rate(&self.buildings, ResourceType::Population),
            self.terrain.resource_modifier(&ResourceType::Population),
        );
        let energy = finished_rate(
            city_total_rate(&self.buildings, ResourceType::Energy),
            self.terrain.resource_modifier(&ResourceType::Energy),
        );
        self.resources.set_production_rate(ResourceType::Gold, gold);
        self.resources.set_production_rate(ResourceType::Wood, wood);
        self.resources.set_production_rate(ResourceType::Stone, stone);
        self.resources.set_production_rate(ResourceType::Food, food);
        self.resources.set_production_rate(ResourceType::Iron, iron);
        self.resources.set_production_rate(ResourceType::Crystal, crystal);
        self.resources.set_production_rate(ResourceType::Population, population);
        self.resources.set_production_rate(ResourceType::Energy, energy);
        self.resources.update_production();
    }

    /// Stats phase of the tick: resets the stats to their defaults, folds
    /// every building's contribution over them, then recomputes the
    /// building cap from the population.
    pub fn update_stats(&mut self)
        ensures
            *final(self) == (City { stats: expected_stats(*old(self)), ..*old(self) }),
    {
        self.stats = CityStats::default();
        let n = self.buildings.len();
        let mut i: usize = 0;
        while i < n
            invariant
                0 <= i <= n == self.buildings@.len(),
                *self == (City {
                    stats: fold_stats(CityStats::base(), old(self).buildings@.take(i as int)),
                    ..*old(self)
                }),
            decreases n - i,
        {
            proof {
                let bs = old(self).buildings@;
                assert(bs.take(i as int + 1).drop_last() =~= bs.take(i as int));
                assert(bs.take(i as int + 1).last() == bs[i as int]);
            }
            let bt = self.buildings[i].building_type;
            let lvl = self.buildings[i].level as u64;
            match bt {
                BuildingType::Residential => {
                    self.stats.max_population = add_capped_u32(self.stats.max_population, 10 * lvl);
                }
                BuildingType::Temple => {
                    self.stats.happiness = add_capped_u32(self.stats.happiness, 5 * lvl);
                    self.stats.culture = add_capped_u32(self.stats.culture, 3 * lvl);
                }
                BuildingType::Wall => {
                    self.stats.defense = add_capped_u32(self.stats.defense, 20 * lvl);
                }
                BuildingType::Laboratory => {
                    self.stats.culture = add_capped_u32(self.stats.culture, 5 * lvl);
                }
                BuildingType::Barracks => {
                    self.stats.defense = add_capped_u32(self.stats.defense, 10 * lvl);
                    self.stats.happiness = sub_floored_u32(self.stats.happiness, 2 * lvl);
                }
                _ => {}
            }
            i = i + 1;
        }
        proof {
            assert(old(self).buildings@.take(n as int) =~= old(self).buildings@);
        }
        self.stats.max_buildings = 5 + self.population / 20;
    }

    /// Population phase of the tick. With too little food, exactly one
    /// inhabitant leaves and happiness drops by five, floored at zero.
    /// With enough food, the population either stays or, only below the
    /// housing cap, grows by exactly one; which of the two happens depends
    /// on a random draw against the happiness stat.
    pub fn update_population(&mut self)
        ensures
            old(self).resources.q(ResourceType::Food) < old(self).population ==> *final(self)
                == (City {
                population: sub_floored(old(self).population, 1),
                stats: CityStats {
                    happiness: sub_floored(old(self).stats.happiness, 5),
                    ..old(self).stats
                },
                ..*old(self)
            }),
            old(self).resources.q(ResourceType::Food) >= old(self).population ==> (*final(self)
                == *old(self) || (old(self).population < old(self).stats.max_population
                && *final(self) == (City {
                population: (old(self).population + 1) as u32,
                ..*old(self)
            }))),
    {
        let food = self.resources.get(&ResourceType::Food);
        if food < self.population {
            self.decrease_population(1);
            let dimmed = sub_floored_u32(self.stats.happiness, 5);
            self.stats.happiness = dimmed;
        } else {
            let draw = (rng::random_u64() % 100) as u32;
            if draw < self.stats.happiness && self.population < self.stats.max_population {
                self.increase_population(1);
            }
        }
    }

    /// One full tick: production, then stats, then population, then the
    /// timestamp. Everything except `last_updated` is pinned relative to
    /// the pre-tick state and the population draw.
    pub fn update(&mut self)
        ensures
            ({
                let c1 = City { resources: produced_resources(*old(self)), ..*old(self) };
                let c2 = City { stats: expected_stats(c1), ..c1 };
                let fin = City { last_updated: c2.last_updated, ..*final(self) };
                &&& (c2.resources.q(ResourceType::Food) < c2.population ==> fin == (City {
                    population: sub_floored(c2.population, 1),
                    stats: CityStats {
                        happiness: sub_floored(c2.stats.happiness, 5),
                        ..c2.stats
                    },
                    ..c2
                }))
                &&& (c2.resources.q(ResourceType::Food) >= c2.population ==> (fin == c2 || (
                c2.population < c2.stats.max_population && fin == (City {
                    population: (c2.population + 1) as u32,
                    ..c2
                }))))
            }),
    {
        self.update_resource_production();
        self.update_stats();
        self.update_population();
        self.last_updated = clock::now_seconds();
    }

    /// Places a new building. Fails, changing nothing, when the building
    /// cap is reached (or the id counter is exhausted), when the position
    /// is taken, or when the base cost is not affordable — in that order.
    /// On success it debits the cost, assigns the next fresh id, and
    /// inserts the building at level 1.
    pub fn add_building(
        &mut self,
        building_type: BuildingType,
        name: String,
        position: (i32, i32),
    ) -> (r: Result<u64, GameError>)
        requires
            old(self).wf(),
        ensures
            final(self).wf(),
            ({
                let limit = old(self).buildings@.len() >= old(self).stats.max_buildings
                    || old(self).next_building_id == u64::MAX;
                let taken = occupied_spec(old(self).buildings@, position);
                let affordable = old(self).resources.can_afford_spec(
                    building_type.base_cost_spec(),
                );
                &&& (limit ==> (r == Err::<u64, GameError>(GameError::BuildingLimitReached)
                    && *final(self) == *old(self)))
                &&& ((!limit && taken) ==> (r == Err::<u64, GameError>(GameError::PositionOccupied)
                    && *final(self) == *old(self)))
                &&& ((!limit && !taken && !affordable) ==> (r == Err::<u64, GameError>(
                    GameError::InsufficientResources,
                ) && *final(self) == *old(self)))
                &&& ((!limit && !taken && affordable) ==> {
                    &&& r == Ok::<u64, GameError>(old(self).next_building_id)
                    &&& final(self).buildings@ == old(self).buildings@.push(
                        Building {
                            id: old(self).next_building_id,
                            name,
                            building_type,
                            level: 1u32,
                            position,
                        },
                    )
                    &&& forall|t: ResourceType|
                        final(self).resources.q(t) == old(self).resources.q(t) - cost_sum(
                            building_type.base_cost_spec(),
                            t,
                        )
                    &&& forall|t: ResourceType|
                        final(self).resources.prod(t) == old(self).resources.prod(t)
                    &&& final(self).next_building_id == old(self).next_building_id + 1
                    &&& *final(self) == (City {
                        buildings: final(self).buildings,
                        resources: final(self).resources,
                        next_building_id: final(self).next_building_id,
                        ..*old(self)
                    })
                })
            }),
    {
        if self.buildings.len() >= self.stats.max_buildings as usize
            || self.next_building_id == u64::MAX {
            return Err(GameError::BuildingLimitReached);
        }
        if position_occupied(&self.buildings, position) {
            return Err(GameError::PositionOccupied);
        }
        let costs = building_type.base_cost();
        if !self.resources.can_afford(&costs) {
            return Err(GameError::InsufficientResources);
        }
        let paid = self.resources.pay(&costs);
        assert(paid);
        let id = self.next_building_id;
        self.next_building_id = id + 1;
        let building = Building::new(id, name, building_type, position);
        self.buildings.push(building);
        Ok(id)
    }

    /// Upgrades a building by id. Fails, changing nothing, when the id is
    /// unknown or the scaled upgrade cost is not affordable; on success it
    /// debits the cost and raises the level by one.
    pub fn upgrade_building(&mut self, building_id: u64) -> (r: Result<(), GameError>)
        requires
            old(self).wf(),
        ensures
            final(self).wf(),
            !has_building_spec(old(self).buildings@, building_id) ==> (r == Err::<(), GameError>(
                GameError::BuildingNotFound,
            ) && *final(self) == *old(self)),
            forall|i: int|
                (0 <= i < old(self).buildings@.len() && (#[trigger] old(self).buildings@[i]).id
                    == building_id) ==> ({
                    let b = old(self).buildings@[i];
                    let costs = b.upgrade_cost_spec();
                    &&& (!old(self).resources.can_afford_spec(costs) ==> (r == Err::<(), GameError>(
                        GameError::InsufficientResources,
                    ) && *final(self) == *old(self)))
                    &&& (old(self).resources.can_afford_spec(costs) ==> {
                        &&& r == Ok::<(), GameError>(())
                        &&& final(self).buildings@ == old(self).buildings@.update(
                            i,
                            Building {
                                level: if b.level < u32::MAX {
                                    (b.level + 1) as u32
                                } else {
                                    u32::MAX
                                },
                                ..b
                            },
                        )
                        &&& forall|t: ResourceType|
                            final(self).resources.q(t) == old(self).resources.q(t) - cost_sum(
                                costs,
                                t,
                            )
                        &&& forall|t: ResourceType|
                            final(self).resources.prod(t) == old(self).resources.prod(t)
                        &&& *final(self) == (City {
                            buildings: final(self).buildings,
                            resources: final(self).resources,
                            ..*old(self)
                        })
                    })
                }),
    {
        let n = self.buildings.len();
        let mut idx: usize = 0;
        while idx < n && self.buildings[idx].id != building_id
            invariant
                *self == *old(self),
                old(self).wf(),
                0 <= idx <= n == self.buildings@.len(),
                forall|j: int| 0 <= j < idx ==> self.buildings@[j].id != building_id,
            decreases n - idx,
        {
            idx = idx + 1;
        }
        if idx >= n {
            return Err(GameError::BuildingNotFound);
        }
        assert(self.buildings@[idx as int].id == building_id);
        let costs = self.buildings[idx].upgrade_cost();
        if !self.resources.can_afford(&costs) {
            return Err(GameError::InsufficientResources);
        }
        let paid = self.resources.pay(&costs);
        assert(paid);
        let mut b = self.buildings.remove(idx);
        b.upgrade();
        proof {
            let bs = old(self).buildings@;
            let k = idx as int;
            let s1 = bs.remove(k);
            let s2 = s1.insert(k, b);
            assert(s2.len() == bs.len());
            assert forall|j: int| 0 <= j < s2.len() implies s2[j] == bs.update(k, b)[j] by {
                if j < k {
                    assert(s1[j] == bs[j]);
                    assert(s2[j] == s1[j]);
                } else if j == k {
                    assert(s2[j] == b);
                } else {
                    assert(s2[j] == s1[j - 1]);
                    assert(s1[j - 1] == bs[j]);
                }
            }
            assert(s2 =~= bs.update(k, b));
        }
        self.buildings.insert(idx, b);
        Ok(())
    }
}

/// The well-formedness conditions of a building list under an id counter,
/// as one spec value.
pub open spec fn buildings_wf_spec(bs: Seq<Building>, next_id: u64) -> bool {
    &&& forall|i: int, j: int| 0 <= i < j < bs.len() ==> #[trigger] bs[i].id != #[trigger] bs[j].id
    &&& forall|i: int, j: int|
        0 <= i < j < bs.len() ==> #[trigger] bs[i].position != #[trigger] bs[j].position
    &&& forall|i: int| 0 <= i < bs.len() ==> #[trigger] bs[i].id < next_id
    &&& forall|i: int| 0 <= i < bs.len() ==> #[trigger] bs[i].level >= 1
}

/// Checks the building-list invariants of a city record read back from
/// storage.
fn check_buildings(buildings: &Vec<Building>, next_id: u64) -> (r: bool)
    ensures
        r == buildings_wf_spec(buildings@, next_id),
{
    let n = buildings.len();
    let mut i: usize = 0;
    while i < n
        invariant
            0 <= i <= n == buildings@.len(),
            forall|a: int| 0 <= a < i ==> #[trigger] buildings@[a].id < next_id,
            forall|a: int| 0 <= a < i ==> #[trigger] buildings@[a].level >= 1,
        decreases n - i,
    {
        if buildings[i].id >= next_id || buildings[i].level < 1 {
            return false;
        }
        i = i + 1;
    }
    let mut a: usize = 0;
    while a < n
        invariant
            0 <= a <= n == buildings@.len(),
            forall|x: int, y: int|
                0 <= x < y < n && x < a ==> #[trigger] buildings@[x].id != #[trigger] buildings@[y].id,
            forall|x: int, y: int|
                0 <= x < y < n && x < a ==> #[trigger] buildings@[x].position
                    != #[trigger] buildings@[y].position,
            forall|x: int| 0 <= x < n ==> #[trigger] buildings@[x].id < next_id,
            forall|x: int| 0 <= x < n ==> #[trigger] buildings@[x].level >= 1,
        decreases n - a,
    {
        let mut b: usize = a + 1;
        while b < n
            invariant
                0 <= a < b <= n == buildings@.len(),
                forall|x: int, y: int|
                    0 <= x < y < n && x < a ==> #[trigger] buildings@[x].id
                        != #[trigger] buildings@[y].id,
                forall|x: int, y: int|
                    0 <= x < y < n && x < a ==> #[trigger] buildings@[x].position
                        != #[trigger] buildings@[y].position,
                forall|x: int| 0 <= x < n ==> #[trigger] buildings@[x].id < next_id,
                forall|x: int| 0 <= x < n ==> #[trigger] buildings@[x].level >= 1,
                forall|y: int|
                    a < y < b ==> #[trigger] buildings@[y].id != buildings@[a as int].id,
                forall|y: int|
                    a < y < b ==> #[trigger] buildings@[y].position != buildings@[a as int].position,
            decreases n - b,
        {
            if buildings[b].id == buildings[a].id {
                return false;
            }
            let pa = buildings[a].position;
            let pb = buildings[b].position;
            if pa.0 == pb.0 && pa.1 == pb.1 {
                return false;
            }
            b = b + 1;
        }
        a = a + 1;
    }
    true
}

impl City {
    /// Rebuilds a city from stored parts, revalidating its invariants.
    /// Accepts exactly the field values a well-formed city decomposes
    /// into, and rebuilds that city unchanged; rejects any record whose
    /// building list breaks the invariants.
    pub fn from_parts(
        id: String,
        name: String,
        owner_id: String,
        population: u32,
        buildings: Vec<Building>,
        resources: Resources,
        stats: CityStats,
        terrain: Terrain,
        position: (i32, i32),
        created_at: i64,
        last_updated: i64,
        next_building_id: u64,
    ) -> (r: Option<City>)
        ensures
            ({
                let c = City {
                    id,
                    name,
                    owner_id,
                    population,
                    buildings,
                    resources,
                    stats,
                    terrain,
                    position,
                    created_at,
                    last_updated,
                    next_building_id,
                };
                if c.wf() {
                    r == Some(c)
                } else {
                    r is None
                }
            }),
    {
        if check_buildings(&buildings, next_building_id) {
            Some(
                City {
                    id,
                    name,
                    owner_id,
                    population,
                    buildings,
                    resources,
                    stats,
                    terrain,
                    position,
                    created_at,
                    last_updated,
                    next_building_id,
                },
            )
        } else {
            None
        }
    }

    /// Round-trip fidelity over the persistence boundary: a well-formed
    /// city, taken apart field by field, reassembles into an equal value,
    /// and the reassembled city is again well-formed — so `from_parts`
    /// accepts it and returns it unchanged.
    pub proof fn lemma_parts_round_trip(c: City)
        requires
            c.wf(),
        ensures
            (City {
                id: c.id,
                name: c.name,
                owner_id: c.owner_id,
                population: c.population,
                buildings: c.buildings,
                resources: c.resources,
                stats: c.stats,
                terrain: c.terrain,
                position: c.position,
                created_at: c.created_at,
                last_updated: c.last_updated,
                next_building_id: c.next_building_id,
            }) == c,
            (City {
                id: c.id,
                name: c.name,
                owner_id: c.owner_id,
                population: c.population,
                buildings: c.buildings,
                resources: c.resources,
                stats: c.stats,
                terrain: c.terrain,
                position: c.position,
                created_at: c.created_at,
                last_updated: c.last_updated,
                next_building_id: c.next_building_id,
            }).wf(),
    {
    }

    /// A textual resource summary for the presentation layer; derived,
    /// never authoritative.
    pub fn get_resource_report(&self) -> String {
        let mut report = "Resources of ".to_owned();
        report.append(self.name.as_str());
        report.append(":\n");
        let all = self.resources.get_all_resources();
        let mut i: usize = 0;
        while i < all.len()
            invariant
                0 <= i <= all@.len(),
            decreases all@.len() - i,
        {
            let (rt, amount) = all[i];
            report.append(rt.display_name());
            report.append(": ");
            report.append(amount.to_string().as_str());
            let rate = self.resources.get_production_rate(&rt);
            report.append(" (");
            if rate > 0 {
                report.append("+");
            }
            report.append(rate.to_string().as_str());
            report.append(")\n");
            i = i + 1;
        }
        report
    }

    /// A textual building summary for the presentation layer.
    pub fn get_buildings_report(&self) -> String {
        let mut report = "Buildings of ".to_owned();
        report.append(self.name.as_str());
        report.append(" (");
        report.append(self.buildings.len().to_string().as_str());
        report.append("/");
        report.append(self.stats.max_buildings.to_string().as_str());
        report.append(")\n");
        let mut i: usize = 0;
        while i < self.buildings.len()
            invariant
                0 <= i <= self.buildings@.len(),
            decreases self.buildings@.len() - i,
        {
            report.append("- ");
            report.append(self.buildings[i].name.as_str());
            report.append(", level ");
            report.append(self.buildings[i].level.to_string().as_str());
            report.append("\n");
            i = i + 1;
        }
        report
    }

    /// A textual stats summary for the presentation layer.
    pub fn get_stats_report(&self) -> String {
        let mut report = "Stats of ".to_owned();
        report.append(self.name.as_str());
        report.append(":\nPopulation: ");
        report.append(self.population.to_string().as_str());
        report.append("/");
        report.append(self.stats.max_population.to_string().as_str());
        report.append("\nHappiness: ");
        report.append(self.stats.happiness.to_string().as_str());
        report.append("\nDefense: ");
        report.append(self.stats.defense.to_string().as_str());
        report.append("\nCulture: ");
        report.append(self.stats.culture.to_string().as_str());
        report.append("\nTerrain: ");
        report.append(self.terrain.display_name());
        report.append("\nFounded at: ");
        report.append(self.created_at.to_string().as_str());
        report.append("\n");
        report
    }
}

/// Whether any building of the list sits at the given position, computed.
pub(crate) fn position_occupied(buildings: &Vec<Building>, position: (i32, i32)) -> (r: bool)
    ensures
        r == occupied_spec(buildings@, position),
{
    let mut i: usize = 0;
    while i < buildings.len()
        invariant
            0 <= i <= buildings@.len(),
            forall|j: int| 0 <= j < i ==> buildings@[j].position != position,
        decreases buildings@.len() - i,
    {
        let b_pos = buildings[i].position;
        if b_pos.0 == position.0 && b_pos.1 == position.1 {
            return true;
        }
        i = i + 1;
    }
    false
}

} // verus!
