//! Building kinds and building instances. A kind is pure data: a fixed base
//! cost and a production effect that scales with the instance level. An
//! instance carries an id, a display name, a level (at least 1), and a city
//! position.

use vstd::prelude::*;
use vstd::arithmetic::power::{
    pow, lemma_pow0, lemma_pow1, lemma_pow_adds, lemma_pow_increases, lemma_pow_positive,
};
use vstd::arithmetic::power2::{lemma2_to64, lemma_pow2};
use vstd::arithmetic::mul::{lemma_mul_inequality, lemma_mul_upper_bound};
use vstd::arithmetic::div_mod::{lemma_div_is_ordered, lemma_div_multiples_vanish};
use crate::resources::{apply_rate, ResourceType, Resources};

verus! {

/// The closed set of building kinds.
#[derive(Clone, Copy, Debug, PartialEq, Eq, Structural)]
pub enum BuildingType {
    Residential,
    Farm,
    LumberMill,
    Mine,
    Market,
    Barracks,
    PowerPlant,
    Laboratory,
    Temple,
    WaterMill,
    Wall,
    Workshop,
    CrystalMine,
}

impl BuildingType {
    pub open spec fn display_name_spec(self) -> Seq<char> {
        match self {
            BuildingType::Residential => "Residential"@,
            BuildingType::Farm => "Farm"@,
            BuildingType::LumberMill => "Lumber Mill"@,
            BuildingType::Mine => "Mine"@,
            BuildingType::Market => "Market"@,
            BuildingType::Barracks => "Barracks"@,
            BuildingType::PowerPlant => "Power Plant"@,
            BuildingType::Laboratory => "Laboratory"@,
            BuildingType::Temple => "Temple"@,
            BuildingType::WaterMill => "Water Mill"@,
            BuildingType::Wall => "Wall"@,
            BuildingType::Workshop => "Workshop"@,
            BuildingType::CrystalMine => "Crystal Mine"@,
        }
    }

    pub fn display_name(&self) -> (r: &'static str)
        ensures
            r@ == self.display_name_spec(),
    {
        match self {
            BuildingType::Residential => "Residential",
            BuildingType::Farm => "Farm",
            BuildingType::LumberMill => "Lumber Mill",
            BuildingType::Mine => "Mine",
            BuildingType::Market => "Market",
            BuildingType::Barracks => "Barracks",
            BuildingType::PowerPlant => "Power Plant",
            BuildingType::Laboratory => "Laboratory",
            BuildingType::Temple => "Temple",
            BuildingType::WaterMill => "Water Mill",
            BuildingType::Wall => "Wall",
            BuildingType::Workshop => "Workshop",
            BuildingType::CrystalMine => "Crystal Mine",
        }
    }

    pub fn description(&self) -> &'static str {
        match self {
            BuildingType::Residential => "Raises the population cap of the city",
            BuildingType::Farm => "Produces food for the population",
            BuildingType::LumberMill => "Harvests wood from nearby forests",
            BuildingType::Mine => "Digs stone and iron out of the ground",
            BuildingType::Market => "Raises the gold income of the city",
            BuildingType::Barracks => "Allows military units to be trained",
            BuildingType::PowerPlant => "Generates energy for the city",
            BuildingType::Laboratory => "Unlocks new research",
            BuildingType::Temple => "Raises happiness and morale",
            BuildingType::WaterMill => "Raises overall productivity",
            BuildingType::Wall => "Protects the city from attacks",
            BuildingType::Workshop => "Improves crafting and production",
            BuildingType::CrystalMine => "Extracts rare crystals",
        }
    }

    /// Fixed cost of placing a building of this kind at level 1.
    pub open spec fn base_cost_spec(self) -> Seq<(ResourceType, u32)> {
        match self {
            BuildingType::Residential => seq![
                (ResourceType::Wood, 50u32),
                (ResourceType::Stone, 30u32),
            ],
            BuildingType::Farm => seq![
                (ResourceType::Wood, 30u32),
                (ResourceType::Gold, 20u32),
            ],
            BuildingType::LumberMill => seq![
                (ResourceType::Wood, 20u32),
                (ResourceType::Stone, 50u32),
                (ResourceType::Gold, 30u32),
            ],
            BuildingType::Mine => seq![
                (ResourceType::Wood, 40u32),
                (ResourceType::Stone, 20u32),
                (ResourceType::Gold, 50u32),
            ],
            BuildingType::Market => seq![
                (ResourceType::Wood, 60u32),
                (ResourceType::Stone, 40u32),
                (ResourceType::Gold, 100u32),
            ],
            BuildingType::Barracks => seq![
                (ResourceType::Wood, 80u32),
                (ResourceType::Stone, 100u32),
                (ResourceType::Iron, 50u32),
            ],
            BuildingType::PowerPlant => seq![
                (ResourceType::Stone, 150u32),
                (ResourceType::Iron, 80u32),
                (ResourceType::Gold, 200u32),
            ],
            BuildingType::Laboratory => seq![
                (ResourceType::Stone, 100u32),
                (ResourceType::Crystal, 30u32),
                (ResourceType::Gold, 250u32),
            ],
            BuildingType::Temple => seq![
                (ResourceType::Stone, 200u32),
                (ResourceType::Wood, 100u32),
                (ResourceType::Gold, 150u32),
                (ResourceType::Crystal, 20u32),
            ],
            BuildingType::WaterMill => seq![
                (ResourceType::Wood, 120u32),
                (ResourceType::Stone, 80u32),
                (ResourceType::Gold, 100u32),
            ],
            BuildingType::Wall => seq![
                (ResourceType::Stone, 300u32),
                (ResourceType::Iron, 100u32),
            ],
            BuildingType::Workshop => seq![
                (ResourceType::Wood, 150u32),
                (ResourceType::Stone, 100u32),
                (ResourceType::Iron, 50u32),
                (ResourceType::Gold, 120u32),
            ],
            BuildingType::CrystalMine => seq![
                (ResourceType::Stone, 200u32),
                (ResourceType::Iron, 150u32),
                (ResourceType::Gold, 300u32),
            ],
        }
    }

    pub fn base_cost(&self) -> (r: Vec<(ResourceType, u32)>)
        ensures
            r@ == self.base_cost_spec(),
    {
        let r: Vec<(ResourceType, u32)> = match self {
            BuildingType::Residential => vec![
                (ResourceType::Wood, 50),
                (ResourceType::Stone, 30),
            ],
            BuildingType::Farm => vec![(ResourceType::Wood, 30), (ResourceType::Gold, 20)],
            BuildingType::LumberMill => vec![
                (ResourceType::Wood, 20),
                (ResourceType::Stone, 50),
                (ResourceType::Gold, 30),
            ],
            BuildingType::Mine => vec![
                (ResourceType::Wood, 40),
                (ResourceType::Stone, 20),
                (ResourceType::Gold, 50),
            ],
            BuildingType::Market => vec![
                (ResourceType::Wood, 60),
                (ResourceType::Stone, 40),
                (ResourceType::Gold, 100),
            ],
            BuildingType::Barracks => vec![
                (ResourceType::Wood, 80),
                (ResourceType::Stone, 100),
                (ResourceType::Iron, 50),
            ],
            BuildingType::PowerPlant => vec![
                (ResourceType::Stone, 150),
                (ResourceType::Iron, 80),
                (ResourceType::Gold, 200),
            ],
            BuildingType::Laboratory => vec![
                (ResourceType::Stone, 100),
                (ResourceType::Crystal, 30),
                (ResourceType::Gold, 250),
            ],
            BuildingType::Temple => vec![
                (ResourceType::Stone, 200),
                (ResourceType::Wood, 100),
                (ResourceType::Gold, 150),
                (ResourceType::Crystal, 20),
            ],
            BuildingType::WaterMill => vec![
                (ResourceType::Wood, 120),
                (ResourceType::Stone, 80),
                (ResourceType::Gold, 100),
            ],
            BuildingType::Wall => vec![(ResourceType::Stone, 300), (ResourceType::Iron, 100)],
            BuildingType::Workshop => vec![
                (ResourceType::Wood, 150),
                (ResourceType::Stone, 100),
                (ResourceType::Iron, 50),
                (ResourceType::Gold, 120),
            ],
            BuildingType::CrystalMine => vec![
                (ResourceType::Stone, 200),
                (ResourceType::Iron, 150),
                (ResourceType::Gold, 300),
            ],
        };
        proof {
            assert(r@ =~= self.base_cost_spec());
        }
        r
    }

    /// Signed per-tick resource deltas of a building of this kind at the
    /// given level. Output deltas are positive and grow with the level;
    /// upkeep deltas are strictly negative and grow in magnitude with the
    /// level; Wall affects defense only, through the city stats.
    pub open spec fn production_effect_spec(self, level: u32) -> Seq<(ResourceType, i64)> {
        let l = level as int;
        match self {
            BuildingType::Residential => seq![
                (ResourceType::Population, (10 + l * 5) as i64),
            ],
            BuildingType::Farm => seq![(ResourceType::Food, (10 + l * 3) as i64)],
            BuildingType::LumberMill => seq![(ResourceType::Wood, (8 + l * 2) as i64)],
            BuildingType::Mine => seq![
                (ResourceType::Stone, (5 + l) as i64),
                (ResourceType::Iron, (2 + l / 2) as i64),
            ],
            BuildingType::Market => seq![(ResourceType::Gold, (15 + l * 5) as i64)],
            BuildingType::Barracks => seq![
                (ResourceType::Gold, (-(10 + l * 2)) as i64),
                (ResourceType::Food, (-(5 + l)) as i64),
            ],
            BuildingType::PowerPlant => seq![(ResourceType::Energy, (20 + l * 10) as i64)],
            BuildingType::Laboratory => seq![
                (ResourceType::Gold, (-(20 + l * 5)) as i64),
                (ResourceType::Energy, (-(5 + l * 2)) as i64),
            ],
            BuildingType::Temple => seq![(ResourceType::Gold, (-(10 + l * 3)) as i64)],
            BuildingType::WaterMill => seq![
                (ResourceType::Food, (5 + l) as i64),
                (ResourceType::Wood, (5 + l) as i64),
            ],
            BuildingType::Wall => seq![],
            BuildingType::Workshop => seq![
                (ResourceType::Gold, (10 + l * 3) as i64),
                (ResourceType::Energy, (-(3 + l)) as i64),
            ],
            BuildingType::CrystalMine => seq![
                (ResourceType::Crystal, (1 + l / 3) as i64),
                (ResourceType::Energy, (-(10 + l * 2)) as i64),
            ],
        }
    }

    pub fn production_effect(&self, level: u32) -> (r: Vec<(ResourceType, i64)>)
        ensures
            r@ == self.production_effect_spec(level),
    {
        let l = level as i64;
        let r: Vec<(ResourceType, i64)> = match self {
            BuildingType::Residential => vec![(ResourceType::Population, 10 + l * 5)],
            BuildingType::Farm => vec![(ResourceType::Food, 10 + l * 3)],
            BuildingType::LumberMill => vec![(ResourceType::Wood, 8 + l * 2)],
            BuildingType::Mine => vec![
                (ResourceType::Stone, 5 + l),
                (ResourceType::Iron, 2 + l / 2),
            ],
            BuildingType::Market => vec![(ResourceType::Gold, 15 + l * 5)],
            BuildingType::Barracks => {
                let gold_upkeep: i64 = -(10 + l * 2);
                let food_upkeep: i64 = -(5 + l);
                vec![(ResourceType::Gold, gold_upkeep), (ResourceType::Food, food_upkeep)]
            },
            BuildingType::PowerPlant => vec![(ResourceType::Energy, 20 + l * 10)],
            BuildingType::Laboratory => {
                let gold_upkeep: i64 = -(20 + l * 5);
                let energy_upkeep: i64 = -(5 + l * 2);
                vec![(ResourceType::Gold, gold_upkeep), (ResourceType::Energy, energy_upkeep)]
            },
            BuildingType::Temple => {
                let gold_upkeep: i64 = -(10 + l * 3);
                vec![(ResourceType::Gold, gold_upkeep)]
            },
            BuildingType::WaterMill => vec![
                (ResourceType::Food, 5 + l),
                (ResourceType::Wood, 5 + l),
            ],
            BuildingType::Wall => Vec::new(),
            BuildingType::Workshop => {
                let energy_upkeep: i64 = -(3 + l);
                vec![(ResourceType::Gold, 10 + l * 3), (ResourceType::Energy, energy_upkeep)]
            },
            BuildingType::CrystalMine => {
                let energy_upkeep: i64 = -(10 + l * 2);
                vec![(ResourceType::Crystal, 1 + l / 3), (ResourceType::Energy, energy_upkeep)]
            },
        };
        proof {
            assert(r@ =~= self.production_effect_spec(level));
        }
        r
    }
}

/// One base-cost amount scaled for the upgrade leaving `level`: the exact
/// value of `amount * 3^level / 2^level` (that is, `amount * 1.5^level`
/// truncated toward zero), capped at `u32::MAX`.
pub open spec fn scaled_amount(amount: u32, level: u32) -> u32 {
    let exact = amount * pow(3, level as nat) / pow(2, level as nat);
    if exact > u32::MAX {
        u32::MAX
    } else {
        exact as u32
    }
}

/// Exact value of `3^58`, by unfolding the power.
#[verifier::rlimit(50)]
proof fn lemma_pow3_58_value()
    ensures
        pow(3, 58) == 4710128697246244834921603689,
{
    reveal_with_fuel(pow, 59);
}

/// Exact value of `3^59`, by unfolding the power.
#[verifier::rlimit(50)]
proof fn lemma_pow3_59_value()
    ensures
        pow(3, 59) == 14130386091738734504764811067,
{
    reveal_with_fuel(pow, 60);
}

/// Exact value of `2^91`, stitched out of tabulated powers of two.
proof fn lemma_pow2_91_value()
    ensures
        pow(2, 91) == 2475880078570760549798248448,
{
    lemma_pow_adds(2, 64, 27);
    lemma_pow2(64);
    lemma_pow2(27);
    lemma2_to64();
}

/// With any positive base amount, fifty-nine or more upgrade steps push the
/// exact scaled cost past the top of the `u32` range.
proof fn lemma_scaled_overflows(amount: u32, level: u32)
    requires
        amount >= 1,
        level >= 59,
    ensures
        amount * pow(3, level as nat) / pow(2, level as nat) > u32::MAX,
{
    let l = level as nat;
    let rest = (l - 59) as nat;
    lemma_pow_positive(2, l);
    lemma_pow_positive(2, rest);
    lemma_pow_positive(3, rest);
    lemma_pow_adds(3, 59, rest);
    lemma_pow_adds(2, 91, rest);
    lemma_pow_adds(2, 32, l);
    lemma_pow3_59_value();
    lemma_pow2_91_value();
    lemma_pow_base_le(2, 3, rest);
    // pow(3, l) == pow(3, 59) * pow(3, rest) >= pow(2, 91) * pow(2, rest)
    lemma_mul_inequality(pow(2, 91), pow(3, 59), pow(2, rest));
    lemma_mul_inequality(pow(2, rest), pow(3, rest), pow(3, 59));
    assert(pow(3, 59) * pow(2, rest) == pow(2, rest) * pow(3, 59));
    assert(pow(3, l) >= pow(2, 91) * pow(2, rest));
    assert(pow(2, 91) * pow(2, rest) == pow(2, (91 + rest) as nat));
    assert(91 + rest == 32 + l);
    assert(pow(3, l) >= pow(2, (32 + l) as nat));
    // amount * pow(3, l) >= pow(3, l)
    lemma_mul_inequality(1, amount as int, pow(3, l));
    // divide both sides by pow(2, l)
    assert(pow(2, (32 + l) as nat) == pow(2, 32) * pow(2, l));
    lemma_div_is_ordered(pow(2, 32) * pow(2, l), amount * pow(3, l), pow(2, l));
    lemma_div_multiples_vanish(pow(2, 32), pow(2, l));
    assert(pow(2, l) * pow(2, 32) == pow(2, 32) * pow(2, l));
    assert(amount * pow(3, l) / pow(2, l) >= pow(2, 32));
    assert(pow(2, 32) > u32::MAX) by {
        lemma_pow2(32);
        lemma2_to64();
    }
}

/// With equal exponents, raising the base cannot shrink a power.
proof fn lemma_pow_base_le(a: int, b: int, e: nat)
    requires
        0 <= a <= b,
    ensures
        pow(a, e) <= pow(b, e),
    decreases e,
{
    reveal(pow);
    if e > 0 {
        let e1 = (e - 1) as nat;
        lemma_pow_base_le(a, b, e1);
        if b == 0 {
            assert(pow(a, e) == a * pow(a, e1));
            assert(pow(b, e) == b * pow(b, e1));
        } else if a == 0 {
            assert(pow(a, e) == a * pow(a, e1));
            lemma_pow_positive(b, e);
        } else {
            lemma_pow_positive(a, e1);
            lemma_pow_positive(b, e1);
            lemma_mul_upper_bound(a, b, pow(a, e1), pow(b, e1));
        }
    }
}

/// Computes `scaled_amount` exactly.
fn scaled_amount_exec(amount: u32, level: u32) -> (r: u32)
    ensures
        r == scaled_amount(amount, level),
{
    if amount == 0 {
        proof {
            lemma_pow_positive(2, level as nat);
            lemma_pow_positive(3, level as nat);
        }
        return 0;
    }
    if level >= 59 {
        proof {
            lemma_scaled_overflows(amount, level);
        }
        return u32::MAX;
    }
    let mut p3: u128 = 1;
    let mut p2: u128 = 1;
    let mut k: u32 = 0;
    proof {
        lemma_pow3_58_value();
        lemma_pow0(3);
        lemma_pow0(2);
    }
    while k < level
        invariant
            k <= level < 59,
            p3 == pow(3, k as nat),
            p2 == pow(2, k as nat),
            pow(3, 58) == 4710128697246244834921603689,
        decreases level - k,
    {
        proof {
            lemma_pow_increases(3, (k + 1) as nat, 58);
            lemma_pow_increases(2, (k + 1) as nat, 58);
            lemma_pow_base_le(2, 3, (k + 1) as nat);
            assert(pow(3, (k + 1) as nat) == pow(3, k as nat) * 3) by {
                lemma_pow_adds(3, k as nat, 1);
                lemma_pow1(3);
            }
            assert(pow(2, (k + 1) as nat) == pow(2, k as nat) * 2) by {
                lemma_pow_adds(2, k as nat, 1);
                lemma_pow1(2);
            }
        }
        p3 = p3 * 3;
        p2 = p2 * 2;
        k = k + 1;
    }
    proof {
        lemma_pow_positive(2, level as nat);
        lemma_pow_increases(3, level as nat, 58);
        lemma_mul_upper_bound(
            amount as int,
            u32::MAX as int,
            p3 as int,
            pow(3, 58),
        );
    }
    let prod: u128 = (amount as u128) * p3;
    let c: u128 = prod / p2;
    if c > u32::MAX as u128 {
        u32::MAX
    } else {
        c as u32
    }
}

/// Combined signed delta that an effect list applies to one resource kind.
pub open spec fn effect_sum(effects: Seq<(ResourceType, i64)>, t: ResourceType) -> int
    decreases effects.len(),
{
    if effects.len() == 0 {
        0
    } else {
        effect_sum(effects.drop_last(), t) + if effects.last().0 == t {
            effects.last().1 as int
        } else {
            0
        }
    }
}

pub proof fn lemma_effect_sum_take_succ(effects: Seq<(ResourceType, i64)>, i: int)
    requires
        0 <= i < effects.len(),
    ensures
        forall|t: ResourceType|
            effect_sum(effects.take(i + 1), t) == effect_sum(effects.take(i), t)
                + if effects[i].0 == t {
                effects[i].1 as int
            } else {
                0
            },
{
    assert(effects.take(i + 1).drop_last() =~= effects.take(i));
    assert(effects.take(i + 1).last() == effects[i]);
}

pub proof fn lemma_effect_sum_one(p: (ResourceType, i64), t: ResourceType)
    ensures
        effect_sum(seq![p], t) == if p.0 == t {
            p.1 as int
        } else {
            0
        },
{
    assert(seq![p].drop_last() =~= Seq::<(ResourceType, i64)>::empty());
    assert(effect_sum(Seq::<(ResourceType, i64)>::empty(), t) == 0);
    assert(seq![p].last() == p);
}

pub proof fn lemma_effect_sum_two(p: (ResourceType, i64), q: (ResourceType, i64), t: ResourceType)
    ensures
        effect_sum(seq![p, q], t) == (if p.0 == t {
            p.1 as int
        } else {
            0
        }) + (if q.0 == t {
            q.1 as int
        } else {
            0
        }),
{
    assert(seq![p, q].drop_last() =~= seq![p]);
    lemma_effect_sum_one(p, t);
}

/// Every per-building effect list moves one resource kind by far less than
/// `2^40` per tick, whatever the level.
pub proof fn lemma_production_effect_bounded(bt: BuildingType, level: u32, t: ResourceType)
    ensures
        -0x100_0000_0000 <= effect_sum(bt.production_effect_spec(level), t) <= 0x100_0000_0000,
{
    lemma_production_effect_unfolded(bt, level, t);
}

/// Production effects scale monotonically with the level: an output delta
/// never shrinks and an upkeep delta never eases as a building levels up.
pub proof fn lemma_production_effect_monotone(
    bt: BuildingType,
    l1: u32,
    l2: u32,
    t: ResourceType,
)
    requires
        l1 <= l2,
    ensures
        ({
            let d1 = effect_sum(bt.production_effect_spec(l1), t);
            let d2 = effect_sum(bt.production_effect_spec(l2), t);
            &&& (d1 >= 0 ==> d1 <= d2)
            &&& (d1 < 0 ==> d2 <= d1)
        }),
{
    lemma_production_effect_unfolded(bt, l1, t);
    lemma_production_effect_unfolded(bt, l2, t);
    vstd::arithmetic::div_mod::lemma_div_is_ordered(l1 as int, l2 as int, 2);
    vstd::arithmetic::div_mod::lemma_div_is_ordered(l1 as int, l2 as int, 3);
}

/// Applies the two-entry unfolding lemmas to one building kind's effect
/// list, so that its per-resource delta becomes plain arithmetic.
proof fn lemma_production_effect_unfolded(bt: BuildingType, level: u32, t: ResourceType)
    ensures
        ({
            let l = level as int;
            let d = effect_sum(bt.production_effect_spec(level), t);
            match bt {
                BuildingType::Residential => d == if t == ResourceType::Population {
                    10 + l * 5
                } else {
                    0
                },
                BuildingType::Farm => d == if t == ResourceType::Food {
                    10 + l * 3
                } else {
                    0
                },
                BuildingType::LumberMill => d == if t == ResourceType::Wood {
                    8 + l * 2
                } else {
                    0
                },
                BuildingType::Mine => d == if t == ResourceType::Stone {
                    5 + l
                } else if t == ResourceType::Iron {
                    2 + l / 2
                } else {
                    0
                },
                BuildingType::Market => d == if t == ResourceType::Gold {
                    15 + l * 5
                } else {
                    0
                },
                BuildingType::Barracks => d == if t == ResourceType::Gold {
                    -(10 + l * 2)
                } else if t == ResourceType::Food {
                    -(5 + l)
                } else {
                    0
                },
                BuildingType::PowerPlant => d == if t == ResourceType::Energy {
                    20 + l * 10
                } else {
                    0
                },
                BuildingType::Laboratory => d == if t == ResourceType::Gold {
                    -(20 + l * 5)
                } else if t == ResourceType::Energy {
                    -(5 + l * 2)
                } else {
                    0
                },
                BuildingType::Temple => d == if t == ResourceType::Gold {
                    -(10 + l * 3)
                } else {
                    0
                },
                BuildingType::WaterMill => d == if t == ResourceType::Food {
                    5 + l
                } else if t == ResourceType::Wood {
                    5 + l
                } else {
                    0
                },
                BuildingType::Wall => d == 0,
                BuildingType::Workshop => d == if t == ResourceType::Gold {
                    10 + l * 3
                } else if t == ResourceType::Energy {
                    -(3 + l)
                } else {
                    0
                },
                BuildingType::CrystalMine => d == if t == ResourceType::Crystal {
                    1 + l / 3
                } else if t == ResourceType::Energy {
                    -(10 + l * 2)
                } else {
                    0
                },
            }
        }),
{
    let l = level as int;
    match bt {
        BuildingType::Residential => {
            lemma_effect_sum_one((ResourceType::Population, (10 + l * 5) as i64), t);
        }
        BuildingType::Farm => {
            lemma_effect_sum_one((ResourceType::Food, (10 + l * 3) as i64), t);
        }
        BuildingType::LumberMill => {
            lemma_effect_sum_one((ResourceType::Wood, (8 + l * 2) as i64), t);
        }
        BuildingType::Mine => {
            lemma_effect_sum_two(
                (ResourceType::Stone, (5 + l) as i64),
                (ResourceType::Iron, (2 + l / 2) as i64),
                t,
            );
        }
        BuildingType::Market => {
            lemma_effect_sum_one((ResourceType::Gold, (15 + l * 5) as i64), t);
        }
        BuildingType::Barracks => {
            lemma_effect_sum_two(
                (ResourceType::Gold, (-(10 + l * 2)) as i64),
                (ResourceType::Food, (-(5 + l)) as i64),
                t,
            );
        }
        BuildingType::PowerPlant => {
            lemma_effect_sum_one((ResourceType::Energy, (20 + l * 10) as i64), t);
        }
        BuildingType::Laboratory => {
            lemma_effect_sum_two(
                (ResourceType::Gold, (-(20 + l * 5)) as i64),
                (ResourceType::Energy, (-(5 + l * 2)) as i64),
                t,
            );
        }
        BuildingType::Temple => {
            lemma_effect_sum_one((ResourceType::Gold, (-(10 + l * 3)) as i64), t);
        }
        BuildingType::WaterMill => {
            lemma_effect_sum_two(
                (ResourceType::Food, (5 + l) as i64),
                (ResourceType::Wood, (5 + l) as i64),
                t,
            );
        }
        BuildingType::Wall => {}
        BuildingType::Workshop => {
            lemma_effect_sum_two(
                (ResourceType::Gold, (10 + l * 3) as i64),
                (ResourceType::Energy, (-(3 + l)) as i64),
                t,
            );
        }
        BuildingType::CrystalMine => {
            lemma_effect_sum_two(
                (ResourceType::Crystal, (1 + l / 3) as i64),
                (ResourceType::Energy, (-(10 + l * 2)) as i64),
                t,
            );
        }
    }
}

/// Combined signed delta of an effect list for one resource kind, computed.
pub(crate) fn effect_sum_exec(effects: &Vec<(ResourceType, i64)>, t: ResourceType) -> (r: i128)
    ensures
        r == effect_sum(effects@, t),
{
    let mut acc: i128 = 0;
    let mut i: usize = 0;
    while i < effects.len()
        invariant
            0 <= i <= effects@.len(),
            acc == effect_sum(effects@.take(i as int), t),
            -(i as int) * 0x8000_0000_0000_0000 <= acc <= (i as int) * 0x8000_0000_0000_0000,
        decreases effects@.len() - i,
    {
        let (rt, amt) = effects[i];
        proof {
            lemma_effect_sum_take_succ(effects@, i as int);
        }
        if rt == t {
            acc = acc + amt as i128;
        }
        i = i + 1;
    }
    proof {
        assert(effects@.take(effects@.len() as int) =~= effects@);
    }
    acc
}

/// A building instance inside one city.
#[derive(Debug)]
pub struct Building {
    /// Unique within the owning city.
    pub id: u64,
    pub name: String,
    pub building_type: BuildingType,
    /// At least 1; grows by one per upgrade.
    pub level: u32,
    /// City-map coordinates, unique within the owning city.
    pub position: (i32, i32),
}

/// A ledger after a list of signed deltas has been applied in order, each
/// clamped at zero and `u32::MAX`.
pub open spec fn apply_effects(base: Resources, effects: Seq<(ResourceType, i64)>) -> Resources
    decreases effects.len(),
{
    if effects.len() == 0 {
        base
    } else {
        let prev = apply_effects(base, effects.drop_last());
        prev.with_q(
            effects.last().0,
            apply_rate(prev.q(effects.last().0), effects.last().1),
        )
    }
}

impl Building {
    /// A fresh building starts at level 1.
    pub fn new(id: u64, name: String, building_type: BuildingType, position: (i32, i32)) -> (r:
        Building)
        ensures
            r == (Building { id, name, building_type, level: 1u32, position }),
    {
        Building { id, name, building_type, level: 1, position }
    }

    /// Raises the level by exactly one; the level counter saturates at the
    /// top of the `u32` range.
    pub fn upgrade(&mut self)
        ensures
            *final(self) == (Building {
                level: if old(self).level < u32::MAX {
                    (old(self).level + 1) as u32
                } else {
                    u32::MAX
                },
                ..*old(self)
            }),
    {
        if self.level < u32::MAX {
            self.level = self.level + 1;
        }
    }

    /// A human-readable summary, for the presentation layer only.
    pub fn get_info(&self) -> String {
        let mut s = self.name.clone();
        s.append(" (");
        s.append(self.id.to_string().as_str());
        s.append("), level ");
        s.append(self.level.to_string().as_str());
        s.append("\nKind: ");
        s.append(self.building_type.display_name());
        s.append("\nDescription: ");
        s.append(self.building_type.description());
        s
    }

    /// Cost of the next upgrade: every base-cost amount scaled by
    /// `1.5^level`, truncated toward zero, capped at `u32::MAX`.
    pub open spec fn upgrade_cost_spec(self) -> Seq<(ResourceType, u32)> {
        self.building_type.base_cost_spec().map_values(
            |p: (ResourceType, u32)| (p.0, scaled_amount(p.1, self.level)),
        )
    }

    pub fn upgrade_cost(&self) -> (r: Vec<(ResourceType, u32)>)
        ensures
            r@ == self.upgrade_cost_spec(),
    {
        let base = self.building_type.base_cost();
        let mut r: Vec<(ResourceType, u32)> = Vec::new();
        let mut i: usize = 0;
        while i < base.len()
            invariant
                0 <= i <= base@.len(),
                base@ == self.building_type.base_cost_spec(),
                r@.len() == i,
                forall|j: int|
                    0 <= j < i ==> r@[j] == (
                        base@[j].0,
                        scaled_amount(base@[j].1, self.level),
                    ),
            decreases base@.len() - i,
        {
            let (rt, amt) = base[i];
            let scaled = scaled_amount_exec(amt, self.level);
            r.push((rt, scaled));
            i = i + 1;
        }
        proof {
            assert(r@ =~= self.upgrade_cost_spec());
        }
        r
    }

    pub open spec fn production_effect_spec(self) -> Seq<(ResourceType, i64)> {
        self.building_type.production_effect_spec(self.level)
    }

    pub fn production_effect(&self) -> (r: Vec<(ResourceType, i64)>)
        ensures
            r@ == self.production_effect_spec(),
    {
        self.building_type.production_effect(self.level)
    }

    /// Applies this building's per-tick deltas to a ledger, each clamped at
    /// zero and `u32::MAX`.
    pub fn apply_production_to_resources(&self, resources: &mut Resources)
        ensures
            *final(resources) == apply_effects(*old(resources), self.production_effect_spec()),
    {
        let effects = self.production_effect();
        let ghost orig = *resources;
        let mut i: usize = 0;
        while i < effects.len()
            invariant
                0 <= i <= effects@.len(),
                effects@ == self.production_effect_spec(),
                *resources == apply_effects(orig, effects@.take(i as int)),
            decreases effects@.len() - i,
        {
            let (rt, amt) = effects[i];
            proof {
                assert(effects@.take(i as int + 1).drop_last() =~= effects@.take(i as int));
                assert(effects@.take(i as int + 1).last() == effects@[i as int]);
            }
            resources.apply_signed(&rt, amt);
            i = i + 1;
        }
        proof {
            assert(effects@.take(effects@.len() as int) =~= effects@);
        }
    }
}

} // verus!
