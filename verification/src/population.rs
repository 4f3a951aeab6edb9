//! Class-stratified population dynamics: six classes with counts, a
//! happiness level, and periodic growth or decline. Fractions are held in
//! hundredths (100 stands for 1.0) and thousandths where finer grain is
//! needed; every division truncates toward zero.

use vstd::prelude::*;
use vstd::arithmetic::div_mod::lemma_div_is_ordered;
use vstd::arithmetic::mul::lemma_mul_upper_bound;
use crate::city::add_capped;
use crate::resources::ResourceType;

verus! {

/// The closed set of population classes.
#[derive(Clone, Copy, Debug, PartialEq, Eq, Structural)]
pub enum PopulationClass {
    Peasant,
    Worker,
    Merchant,
    Soldier,
    Scholar,
    Noble,
}

/// A settlement's population, stratified by class.
#[derive(Clone, Copy, Debug, PartialEq, Eq, Structural)]
pub struct Population {
    pub peasants: u32,
    pub workers: u32,
    pub merchants: u32,
    pub soldiers: u32,
    pub scholars: u32,
    pub nobles: u32,
    /// Happiness in hundredths, clamped to 0..=100.
    pub happiness_centi: u32,
    /// Base growth rate in hundredths (2 stands for 0.02).
    pub growth_rate_centi: u32,
    /// Food one head eats per day, in hundredths (50 stands for 0.5).
    pub food_consumption_centi: u32,
    /// Ticks until the next growth evaluation.
    pub next_growth_tick: u32,
}

/// Clamp an adjusted happiness value back into 0..=100 hundredths.
pub open spec fn clamp100(x: int) -> u32 {
    if x < 0 {
        0u32
    } else if x > 100 {
        100u32
    } else {
        x as u32
    }
}

impl Population {
    /// Happiness stays inside its hundredths range.
    pub open spec fn wf(self) -> bool {
        self.happiness_centi <= 100
    }

    pub open spec fn initial() -> Population {
        Population {
            peasants: 20,
            workers: 10,
            merchants: 3,
            soldiers: 5,
            scholars: 1,
            nobles: 1,
            happiness_centi: 70,
            growth_rate_centi: 2,
            food_consumption_centi: 50,
            next_growth_tick: 10,
        }
    }

    pub fn new() -> (p: Population)
        ensures
            p == Population::initial(),
            p.wf(),
    {
        Population {
            peasants: 20,
            workers: 10,
            merchants: 3,
            soldiers: 5,
            scholars: 1,
            nobles: 1,
            happiness_centi: 70,
            growth_rate_centi: 2,
            food_consumption_centi: 50,
            next_growth_tick: 10,
        }
    }

    /// The count of one class.
    pub open spec fn count_spec(self, class: PopulationClass) -> u32 {
        match class {
            PopulationClass::Peasant => self.peasants,
            PopulationClass::Worker => self.workers,
            PopulationClass::Merchant => self.merchants,
            PopulationClass::Soldier => self.soldiers,
            PopulationClass::Scholar => self.scholars,
            PopulationClass::Noble => self.nobles,
        }
    }

    pub fn count(&self, class: PopulationClass) -> (r: u32)
        ensures
            r == self.count_spec(class),
    {
        match class {
            PopulationClass::Peasant => self.peasants,
            PopulationClass::Worker => self.workers,
            PopulationClass::Merchant => self.merchants,
            PopulationClass::Soldier => self.soldiers,
            PopulationClass::Scholar => self.scholars,
            PopulationClass::Noble => self.nobles,
        }
    }

    pub open spec fn total_spec(self) -> int {
        self.peasants + self.workers + self.merchants + self.soldiers + self.scholars
            + self.nobles
    }

    pub fn total(&self) -> (r: u64)
        ensures
            r == self.total_spec(),
    {
        self.peasants as u64 + self.workers as u64 + self.merchants as u64 + self.soldiers as u64
            + self.scholars as u64 + self.nobles as u64
    }

    /// Food the whole population eats per day:
    /// `floor(total * consumption / 100)`.
    pub open spec fn daily_food_spec(self) -> int {
        self.total_spec() * self.food_consumption_centi / 100
    }

    pub fn daily_food_consumption(&self) -> (r: u64)
        ensures
            r == self.daily_food_spec(),
            r < 0x1000_0000_0000_0000,
    {
        let total = self.total();
        proof {
            lemma_mul_upper_bound(
                total as int,
                25769803770,
                self.food_consumption_centi as int,
                u32::MAX as int,
            );
            lemma_div_is_ordered(
                (total as int) * (self.food_consumption_centi as int),
                110680464390717702150,
                100,
            );
        }
        (((total as u128) * (self.food_consumption_centi as u128)) / 100) as u64
    }

    /// The population after `growth` new members: six in ten go to the
    /// peasants and three in ten to the workers (each rounded down); the
    /// remainder is split evenly over the other four classes, with the
    /// leftover going one head each to the earliest of them in the fixed
    /// order merchant, soldier, scholar, noble. Counts cap at `u32::MAX`.
    pub open spec fn grown_spec(self, growth: u32) -> Population {
        let p = growth * 6 / 10;
        let w = growth * 3 / 10;
        let rest = growth - p - w;
        let per = rest / 4;
        let rem = rest % 4;
        Population {
            peasants: add_capped(self.peasants, p),
            workers: add_capped(self.workers, w),
            merchants: add_capped(self.merchants, per + if rem > 0 { 1int } else { 0int }),
            soldiers: add_capped(self.soldiers, per + if rem > 1 { 1int } else { 0int }),
            scholars: add_capped(self.scholars, per + if rem > 2 { 1int } else { 0int }),
            nobles: add_capped(self.nobles, per),
            ..self
        }
    }

    pub fn distribute_growth(&mut self, growth: u32)
        ensures
            *final(self) == old(self).grown_spec(growth),
    {
        let g = growth as u64;
        let p = g * 6 / 10;
        let w = g * 3 / 10;
        let rest = g - p - w;
        let per = rest / 4;
        let rem = rest % 4;
        self.peasants = add_capped_u32_local(self.peasants, p);
        self.workers = add_capped_u32_local(self.workers, w);
        self.merchants = add_capped_u32_local(self.merchants, per + if rem > 0 { 1 } else { 0 });
        self.soldiers = add_capped_u32_local(self.soldiers, per + if rem > 1 { 1 } else { 0 });
        self.scholars = add_capped_u32_local(self.scholars, per + if rem > 2 { 1 } else { 0 });
        self.nobles = add_capped_u32_local(self.nobles, per);
    }

    /// The population after `decline` departures: each class, in the fixed
    /// order peasant, worker, merchant, soldier, scholar, noble, loses its
    /// proportional share `floor(decline * count / total)` of the total at
    /// the time of the call, never more than it has and never more than
    /// what is still left of `decline`.
    pub open spec fn declined_spec(self, decline: u32) -> Population {
        let total = self.total_spec();
        if total == 0 {
            self
        } else {
            let d0 = decline as int;
            let t1 = class_take(d0, self.peasants, total, d0);
            let t2 = class_take(d0, self.workers, total, d0 - t1);
            let t3 = class_take(d0, self.merchants, total, d0 - t1 - t2);
            let t4 = class_take(d0, self.soldiers, total, d0 - t1 - t2 - t3);
            let t5 = class_take(d0, self.scholars, total, d0 - t1 - t2 - t3 - t4);
            let t6 = class_take(d0, self.nobles, total, d0 - t1 - t2 - t3 - t4 - t5);
            Population {
                peasants: (self.peasants - t1) as u32,
                workers: (self.workers - t2) as u32,
                merchants: (self.merchants - t3) as u32,
                soldiers: (self.soldiers - t4) as u32,
                scholars: (self.scholars - t5) as u32,
                nobles: (self.nobles - t6) as u32,
                ..self
            }
        }
    }

    pub fn distribute_decline(&mut self, decline: u32)
        ensures
            *final(self) == old(self).declined_spec(decline),
    {
        let total = self.total();
        if total == 0 {
            return ;
        }
        let d0 = decline as u64;
        let mut left = d0;
        let t1 = class_take_exec(d0, self.peasants, total, left);
        left = left - t1;
        let t2 = class_take_exec(d0, self.workers, total, left);
        left = left - t2;
        let t3 = class_take_exec(d0, self.merchants, total, left);
        left = left - t3;
        let t4 = class_take_exec(d0, self.soldiers, total, left);
        left = left - t4;
        let t5 = class_take_exec(d0, self.scholars, total, left);
        left = left - t5;
        let t6 = class_take_exec(d0, self.nobles, total, left);
        self.peasants = self.peasants - t1 as u32;
        self.workers = self.workers - t2 as u32;
        self.merchants = self.merchants - t3 as u32;
        self.soldiers = self.soldiers - t4 as u32;
        self.scholars = self.scholars - t5 as u32;
        self.nobles = self.nobles - t6 as u32;
    }

    /// The population after one update step: happiness moves with the food
    /// balance and is clamped into its range; when the growth countdown
    /// reaches zero, the population grows or declines by the effective
    /// rate and the countdown resets to ten ticks.
    pub open spec fn updated_spec(self, food_available: u32, housing_capacity: u32) -> Population {
        let needed = self.daily_food_spec();
        let h1 = if (food_available as int) < needed {
            clamp100(self.happiness_centi - (needed - food_available) * 10 / needed)
        } else {
            clamp100(self.happiness_centi + 1)
        };
        let p1 = Population { happiness_centi: h1, ..self };
        if self.next_growth_tick > 0 {
            Population { next_growth_tick: (self.next_growth_tick - 1) as u32, ..p1 }
        } else {
            let total = p1.total_spec();
            let mod_milli: int = if total >= housing_capacity {
                0
            } else {
                20 * h1 - 500
            };
            let scaled = self.growth_rate_centi * mod_milli;
            let p2 = if scaled > 0 {
                p1.grown_spec(cap_u32(total * scaled / 100000))
            } else if scaled < 0 {
                p1.declined_spec(cap_u32(total * (-scaled) / 100000))
            } else {
                p1
            };
            Population { next_growth_tick: 10u32, ..p2 }
        }
    }

    /// One update step, driven by the food on hand and the housing cap.
    pub fn update(&mut self, food_available: u32, housing_capacity: u32)
        ensures
            *final(self) == old(self).updated_spec(food_available, housing_capacity),
            old(self).wf() ==> final(self).wf(),
    {
        let needed = self.daily_food_consumption();
        let h0 = self.happiness_centi;
        let h1: u32 = if (food_available as u64) < needed {
            let shortfall = needed - food_available as u64;
            let penalty = shortfall * 10 / needed;
            if penalty >= h0 as u64 {
                0
            } else {
                let dropped = h0 - penalty as u32;
                if dropped > 100 {
                    100
                } else {
                    dropped
                }
            }
        } else {
            if h0 >= 100 {
                100
            } else {
                h0 + 1
            }
        };
        self.happiness_centi = h1;
        if self.next_growth_tick > 0 {
            self.next_growth_tick = self.next_growth_tick - 1;
        } else {
            let total = self.total();
            let mod_milli: i64 = if total >= housing_capacity as u64 {
                0
            } else {
                20 * (h1 as i64) - 500
            };
            proof {
                assert((self.growth_rate_centi as int) * (mod_milli as int)
                    <= 0x600_0000_0000_0000 && (self.growth_rate_centi as int) * (
                mod_milli as int) >= -0x600_0000_0000_0000) by (nonlinear_arith)
                    requires
                        0 <= self.growth_rate_centi as int <= 0xffff_ffff,
                        -500 <= mod_milli as int <= 1500,
                ;
            }
            let scaled: i64 = (self.growth_rate_centi as i64) * mod_milli;
            if scaled > 0 {
                proof {
                    lemma_mul_upper_bound(
                        total as int,
                        25769803770,
                        scaled as int,
                        0x600_0000_0000_0000,
                    );
                }
                let amount: u128 = (total as u128) * (scaled as u128) / 100000;
                let grown: u32 = if amount > u32::MAX as u128 {
                    u32::MAX
                } else {
                    amount as u32
                };
                self.distribute_growth(grown);
            } else if scaled < 0 {
                proof {
                    lemma_mul_upper_bound(
                        total as int,
                        25769803770,
                        (-scaled) as int,
                        0x600_0000_0000_0000,
                    );
                }
                let amount: u128 = (total as u128) * ((-scaled) as u128) / 100000;
                let shrunk: u32 = if amount > u32::MAX as u128 {
                    u32::MAX
                } else {
                    amount as u32
                };
                self.distribute_decline(shrunk);
            }
            self.next_growth_tick = 10;
        }
    }

    /// Weighted production bonus of the class mix for one resource kind,
    /// in percent of a head's base output.
    pub open spec fn production_bonus_spec(self, resource: ResourceType) -> u32 {
        let total = self.total_spec();
        if total == 0 {
            0u32
        } else {
            match resource {
                ResourceType::Wood => (
                    (50 * self.peasants + 100 * self.workers) / total
                ) as u32,
                ResourceType::Stone => ((150 * self.workers) / total) as u32,
                ResourceType::Gold => (
                    (200 * self.merchants + 300 * self.nobles + 100 * self.scholars) / total
                ) as u32,
                _ => 0u32,
            }
        }
    }

    pub fn get_production_bonus(&self, resource: &ResourceType) -> (r: u32)
        ensures
            r == self.production_bonus_spec(*resource),
    {
        let total = self.total();
        if total == 0 {
            return 0;
        }
        match resource {
            ResourceType::Wood => {
                let weighted = 50 * (self.peasants as u64) + 100 * (self.workers as u64);
                (weighted / total) as u32
            },
            ResourceType::Stone => {
                let weighted = 150 * (self.workers as u64);
                (weighted / total) as u32
            },
            ResourceType::Gold => {
                let weighted = 200 * (self.merchants as u64) + 300 * (self.nobles as u64) + 100
                    * (self.scholars as u64);
                (weighted / total) as u32
            },
            _ => 0,
        }
    }
}

/// Truncate a nonnegative mathematical amount into the `u32` range.
pub open spec fn cap_u32(x: int) -> u32 {
    if x > u32::MAX {
        u32::MAX
    } else if x < 0 {
        0u32
    } else {
        x as u32
    }
}

/// One class's share of a decline pass: `floor(decline * count / total)`,
/// capped by the class count and by what is still left to remove.
pub open spec fn class_take(decline: int, count: u32, total: int, left: int) -> int {
    let share = decline * count / total;
    let capped = if share > count {
        count as int
    } else {
        share
    };
    if capped > left {
        left
    } else {
        capped
    }
}

fn class_take_exec(decline: u64, count: u32, total: u64, left: u64) -> (r: u64)
    requires
        total > 0,
        decline <= u32::MAX,
        left <= decline,
    ensures
        r == class_take(decline as int, count, total as int, left as int),
        r <= count,
        r <= left,
{
    proof {
        lemma_mul_upper_bound(decline as int, u32::MAX as int, count as int, u32::MAX as int);
    }
    let share = decline * (count as u64) / total;
    let capped = if share > count as u64 {
        count as u64
    } else {
        share
    };
    if capped > left {
        left
    } else {
        capped
    }
}

fn add_capped_u32_local(a: u32, delta: u64) -> (r: u32)
    ensures
        r == add_capped(a, delta as int),
{
    if delta > (u32::MAX - a) as u64 {
        u32::MAX
    } else {
        a + (delta as u32)
    }
}

} // verus!
