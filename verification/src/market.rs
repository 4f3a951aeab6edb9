//! Per-settlement markets and the trade-route scheduler. A market tracks a
//! few resource kinds, each with a stock, a base price, a current price,
//! and demand/supply factors held in hundredths (100 stands for 1.0).
//! Prices change only in `update_prices`; trading nudges the factors that
//! feed the next price pass.

use vstd::prelude::*;
use vstd::arithmetic::mul::lemma_mul_upper_bound;
use crate::city::{add_capped, add_capped_u32, City};
use crate::error::GameError;
use crate::resources::{sat_add_u32, ResourceType};

verus! {

/// One tracked resource on a market.
#[derive(Clone, Copy, Debug, PartialEq, Eq, Structural)]
pub struct MarketItem {
    pub resource: ResourceType,
    pub quantity: u32,
    pub base_price: u32,
    pub current_price: u32,
}

/// A tracked resource together with its demand and supply factors, both in
/// hundredths.
#[derive(Clone, Copy, Debug, PartialEq, Eq, Structural)]
pub struct MarketEntry {
    pub item: MarketItem,
    pub demand_centi: u32,
    pub supply_centi: u32,
}

/// A settlement's price book.
#[derive(Debug)]
pub struct Market {
    pub entries: Vec<MarketEntry>,
}

/// `round(base * demand / supply)` on factors in hundredths, capped at
/// `u32::MAX`; a zero supply factor reads as the floor of one hundredth.
pub open spec fn rounded_price(base: u32, demand: u32, supply: u32) -> u32 {
    let s: int = if supply == 0 {
        1
    } else {
        supply as int
    };
    let exact = (2 * base * demand + s) / (2 * s);
    if exact > u32::MAX {
        u32::MAX
    } else {
        exact as u32
    }
}

fn rounded_price_exec(base: u32, demand: u32, supply: u32) -> (r: u32)
    ensures
        r == rounded_price(base, demand, supply),
{
    let s: u128 = if supply == 0 {
        1
    } else {
        supply as u128
    };
    proof {
        lemma_mul_upper_bound(2 * (base as int), 2 * (u32::MAX as int), demand as int, u32::MAX as int);
    }
    let num: u128 = 2 * (base as u128) * (demand as u128) + s;
    let p = num / (2 * s);
    if p > u32::MAX as u128 {
        u32::MAX
    } else {
        p as u32
    }
}

/// Index of the first entry tracking `t`, or -1 when none does.
pub open spec fn find_entry(entries: Seq<MarketEntry>, t: ResourceType) -> int
    decreases entries.len(),
{
    if entries.len() == 0 {
        -1
    } else if entries.first().item.resource == t {
        0
    } else {
        let r = find_entry(entries.drop_first(), t);
        if r < 0 {
            -1
        } else {
            r + 1
        }
    }
}

pub proof fn lemma_find_entry(entries: Seq<MarketEntry>, t: ResourceType)
    ensures
        find_entry(entries, t) == -1 || find_entry(entries, t) >= 0,
        find_entry(entries, t) >= 0 ==> find_entry(entries, t) < entries.len()
            && entries[find_entry(entries, t)].item.resource == t && forall|j: int|
            0 <= j < find_entry(entries, t) ==> entries[j].item.resource != t,
        find_entry(entries, t) == -1 ==> forall|j: int|
            0 <= j < entries.len() ==> entries[j].item.resource != t,
    decreases entries.len(),
{
    if entries.len() > 0 {
        let rest = entries.drop_first();
        lemma_find_entry(rest, t);
        assert(forall|j: int| 0 <= j < rest.len() ==> rest[j] == entries[j + 1]);
        if entries.first().item.resource == t {
        } else {
            let r = find_entry(rest, t);
            let f = find_entry(entries, t);
            if r >= 0 {
                assert(f == r + 1);
                assert(entries[f] == rest[r]);
                assert forall|j: int| 0 <= j < f implies entries[j].item.resource != t by {
                    if j > 0 {
                        assert(entries[j] == rest[j - 1]);
                    }
                }
            } else {
                assert forall|j: int|
                    0 <= j < entries.len() implies entries[j].item.resource != t by {
                    if j > 0 {
                        assert(entries[j] == rest[j - 1]);
                    }
                }
            }
        }
    }
}

/// An entry after one price pass.
pub open spec fn repriced_entry(e: MarketEntry) -> MarketEntry {
    MarketEntry {
        item: MarketItem {
            current_price: rounded_price(e.item.base_price, e.demand_centi, e.supply_centi),
            ..e.item
        },
        ..e
    }
}

impl Market {
    /// The entries a fresh market starts with: gold, wood, and stone, each
    /// with a stock of 100 and both factors at 1.00.
    pub open spec fn initial_entries() -> Seq<MarketEntry> {
        seq![
            MarketEntry {
                item: MarketItem {
                    resource: ResourceType::Gold,
                    quantity: 100u32,
                    base_price: 100u32,
                    current_price: 100u32,
                },
                demand_centi: 100u32,
                supply_centi: 100u32,
            },
            MarketEntry {
                item: MarketItem {
                    resource: ResourceType::Wood,
                    quantity: 100u32,
                    base_price: 20u32,
                    current_price: 20u32,
                },
                demand_centi: 100u32,
                supply_centi: 100u32,
            },
            MarketEntry {
                item: MarketItem {
                    resource: ResourceType::Stone,
                    quantity: 100u32,
                    base_price: 40u32,
                    current_price: 40u32,
                },
                demand_centi: 100u32,
                supply_centi: 100u32,
            },
        ]
    }

    pub fn new() -> (m: Market)
        ensures
            m.entries@ == Market::initial_entries(),
    {
        let mut entries: Vec<MarketEntry> = Vec::new();
        entries.push(
            MarketEntry {
                item: MarketItem {
                    resource: ResourceType::Gold,
                    quantity: 100,
                    base_price: 100,
                    current_price: 100,
                },
                demand_centi: 100,
                supply_centi: 100,
            },
        );
        entries.push(
            MarketEntry {
                item: MarketItem {
                    resource: ResourceType::Wood,
                    quantity: 100,
                    base_price: 20,
                    current_price: 20,
                },
                demand_centi: 100,
                supply_centi: 100,
            },
        );
        entries.push(
            MarketEntry {
                item: MarketItem {
                    resource: ResourceType::Stone,
                    quantity: 100,
                    base_price: 40,
                    current_price: 40,
                },
                demand_centi: 100,
                supply_centi: 100,
            },
        );
        proof {
            assert(entries@ =~= Market::initial_entries());
        }
        Market { entries }
    }

    /// The one place prices change: every entry's current price becomes
    /// `round(base * demand / supply)`.
    pub fn update_prices(&mut self)
        ensures
            final(self).entries@ == old(self).entries@.map_values(
                |e: MarketEntry| repriced_entry(e),
            ),
    {
        let n = self.entries.len();
        let mut i: usize = 0;
        while i < n
            invariant
                0 <= i <= n == self.entries@.len(),
                n == old(self).entries@.len(),
                forall|j: int| i <= j < n ==> self.entries@[j] == old(self).entries@[j],
                forall|j: int| 0 <= j < i ==> self.entries@[j] == repriced_entry(
                    old(self).entries@[j],
                ),
            decreases n - i,
        {
            let e = self.entries[i];
            let p = rounded_price_exec(e.item.base_price, e.demand_centi, e.supply_centi);
            let er = &mut self.entries[i];
            er.item.current_price = p;
            i = i + 1;
        }
        proof {
            assert(self.entries@ =~= old(self).entries@.map_values(
                |e: MarketEntry| repriced_entry(e),
            ));
        }
    }

    /// Takes stock off the market at the current price and nudges demand up
    /// by one hundredth. Fails, changing nothing, when the resource is
    /// untracked or the stock is short; the price itself does not move
    /// until the next price pass.
    pub fn buy(&mut self, resource: &ResourceType, quantity: u32) -> (r: Result<u64, GameError>)
        ensures
            ({
                let ei = find_entry(old(self).entries@, *resource);
                &&& (ei == -1 ==> r == Err::<u64, GameError>(GameError::ResourceUntracked)
                    && *final(self) == *old(self))
                &&& (ei >= 0 ==> {
                    let e = old(self).entries@[ei];
                    &&& (e.item.quantity < quantity ==> r == Err::<u64, GameError>(
                        GameError::InsufficientResources,
                    ) && *final(self) == *old(self))
                    &&& (e.item.quantity >= quantity ==> r == Ok::<u64, GameError>(
                        ((e.item.current_price as u64) * (quantity as u64)) as u64,
                    ) && final(self).entries@ == old(self).entries@.update(
                        ei,
                        MarketEntry {
                            item: MarketItem {
                                quantity: (e.item.quantity - quantity) as u32,
                                ..e.item
                            },
                            demand_centi: add_capped(e.demand_centi, 1),
                            ..e
                        },
                    ))
                })
            }),
    {
        let n = self.entries.len();
        let mut i: usize = 0;
        while i < n && self.entries[i].item.resource != *resource
            invariant
                *self == *old(self),
                0 <= i <= n == self.entries@.len(),
                forall|j: int| 0 <= j < i ==> self.entries@[j].item.resource != *resource,
            decreases n - i,
        {
            i = i + 1;
        }
        proof {
            lemma_find_entry(old(self).entries@, *resource);
        }
        if i >= n {
            return Err(GameError::ResourceUntracked);
        }
        assert(find_entry(old(self).entries@, *resource) == i);
        let e = self.entries[i];
        if e.item.quantity < quantity {
            return Err(GameError::InsufficientResources);
        }
        proof {
            lemma_mul_upper_bound(
                e.item.current_price as int,
                u32::MAX as int,
                quantity as int,
                u32::MAX as int,
            );
        }
        let price = (e.item.current_price as u64) * (quantity as u64);
        let er = &mut self.entries[i];
        er.item.quantity = e.item.quantity - quantity;
        er.demand_centi = add_capped_u32(e.demand_centi, 1);
        Ok(price)
    }

    /// Puts stock onto the market at the current price and nudges supply up
    /// by one hundredth. Fails, changing nothing, only when the resource is
    /// untracked.
    pub fn sell(&mut self, resource: &ResourceType, quantity: u32) -> (r: Result<u64, GameError>)
        ensures
            ({
                let ei = find_entry(old(self).entries@, *resource);
                &&& (ei == -1 ==> r == Err::<u64, GameError>(GameError::ResourceUntracked)
                    && *final(self) == *old(self))
                &&& (ei >= 0 ==> {
                    let e = old(self).entries@[ei];
                    &&& r == Ok::<u64, GameError>(((e.item.current_price as u64) * (quantity as u64)) as u64)
                    &&& final(self).entries@ == old(self).entries@.update(
                        ei,
                        MarketEntry {
                            item: MarketItem {
                                quantity: sat_add_u32(e.item.quantity, quantity),
                                ..e.item
                            },
                            supply_centi: add_capped(e.supply_centi, 1),
                            ..e
                        },
                    )
                })
            }),
    {
        let n = self.entries.len();
        let mut i: usize = 0;
        while i < n && self.entries[i].item.resource != *resource
            invariant
                *self == *old(self),
                0 <= i <= n == self.entries@.len(),
                forall|j: int| 0 <= j < i ==> self.entries@[j].item.resource != *resource,
            decreases n - i,
        {
            i = i + 1;
        }
        proof {
            lemma_find_entry(old(self).entries@, *resource);
        }
        if i >= n {
            return Err(GameError::ResourceUntracked);
        }
        assert(find_entry(old(self).entries@, *resource) == i);
        let e = self.entries[i];
        proof {
            lemma_mul_upper_bound(
                e.item.current_price as int,
                u32::MAX as int,
                quantity as int,
                u32::MAX as int,
            );
        }
        let revenue = (e.item.current_price as u64) * (quantity as u64);
        let grown = if quantity > u32::MAX - e.item.quantity {
            u32::MAX
        } else {
            e.item.quantity + quantity
        };
        let er = &mut self.entries[i];
        er.item.quantity = grown;
        er.supply_centi = add_capped_u32(e.supply_centi, 1);
        Ok(revenue)
    }
}

/// The display name of a resource kind, for market messages and reports.
pub fn resource_to_string(resource: &ResourceType) -> (r: &'static str)
    ensures
        r@ == resource.display_name_spec(),
{
    resource.display_name()
}

/// A time-delayed, one-shot resource transfer between two settlements.
#[derive(Debug)]
pub struct TradeRoute {
    pub source_city: String,
    pub target_city: String,
    pub resource: ResourceType,
    pub quantity: u32,
    /// Snapshot of the source market's current price at creation.
    pub price_per_unit: u32,
    /// Remaining game ticks; the transfer runs when this reaches zero.
    pub duration: u32,
}

/// A settlement name with its market.
#[derive(Debug)]
pub struct CityMarket {
    pub city: String,
    pub market: Market,
}

/// Owns every in-flight trade route and the markets of all settlements.
#[derive(Debug)]
pub struct TradeManager {
    pub routes: Vec<TradeRoute>,
    pub markets: Vec<CityMarket>,
}

/// Ticks a fresh route waits before its transfer runs.
pub const ROUTE_DURATION: u32 = 10;

/// The mathematical content of a market list: each settlement's name with
/// its entries.
pub open spec fn market_views(ms: Seq<CityMarket>) -> Seq<(Seq<char>, Seq<MarketEntry>)> {
    ms.map_values(|cm: CityMarket| (cm.city@, cm.market.entries@))
}

/// Index of the first city of the list with the given name, or -1.
pub open spec fn find_city(cities: Seq<City>, name: Seq<char>) -> int
    decreases cities.len(),
{
    if cities.len() == 0 {
        -1
    } else if cities.first().name@ == name {
        0
    } else {
        let r = find_city(cities.drop_first(), name);
        if r < 0 {
            -1
        } else {
            r + 1
        }
    }
}

pub proof fn lemma_find_city(cities: Seq<City>, name: Seq<char>)
    ensures
        find_city(cities, name) == -1 || find_city(cities, name) >= 0,
        find_city(cities, name) >= 0 ==> find_city(cities, name) < cities.len()
            && cities[find_city(cities, name)].name@ == name && forall|j: int|
            0 <= j < find_city(cities, name) ==> cities[j].name@ != name,
        find_city(cities, name) == -1 ==> forall|j: int|
            0 <= j < cities.len() ==> cities[j].name@ != name,
    decreases cities.len(),
{
    if cities.len() > 0 {
        let rest = cities.drop_first();
        lemma_find_city(rest, name);
        assert(forall|j: int| 0 <= j < rest.len() ==> rest[j] == cities[j + 1]);
        if cities.first().name@ == name {
        } else {
            let r = find_city(rest, name);
            let f = find_city(cities, name);
            if r >= 0 {
                assert(cities[f] == rest[r]);
                assert forall|j: int| 0 <= j < f implies cities[j].name@ != name by {
                    if j > 0 {
                        assert(cities[j] == rest[j - 1]);
                    }
                }
            } else {
                assert forall|j: int| 0 <= j < cities.len() implies cities[j].name@ != name by {
                    if j > 0 {
                        assert(cities[j] == rest[j - 1]);
                    }
                }
            }
        }
    }
}

/// Index of the first market view with the given name, or -1.
pub open spec fn find_market_view(ms: Seq<(Seq<char>, Seq<MarketEntry>)>, name: Seq<char>) -> int
    decreases ms.len(),
{
    if ms.len() == 0 {
        -1
    } else if ms.first().0 == name {
        0
    } else {
        let r = find_market_view(ms.drop_first(), name);
        if r < 0 {
            -1
        } else {
            r + 1
        }
    }
}

pub proof fn lemma_find_market_view(ms: Seq<(Seq<char>, Seq<MarketEntry>)>, name: Seq<char>)
    ensures
        find_market_view(ms, name) == -1 || find_market_view(ms, name) >= 0,
        find_market_view(ms, name) >= 0 ==> find_market_view(ms, name) < ms.len()
            && ms[find_market_view(ms, name)].0 == name && forall|j: int|
            0 <= j < find_market_view(ms, name) ==> ms[j].0 != name,
        find_market_view(ms, name) == -1 ==> forall|j: int|
            0 <= j < ms.len() ==> ms[j].0 != name,
    decreases ms.len(),
{
    if ms.len() > 0 {
        let rest = ms.drop_first();
        lemma_find_market_view(rest, name);
        assert(forall|j: int| 0 <= j < rest.len() ==> rest[j] == ms[j + 1]);
        if ms.first().0 == name {
        } else {
            let r = find_market_view(rest, name);
            let f = find_market_view(ms, name);
            if r >= 0 {
                assert(ms[f] == rest[r]);
                assert forall|j: int| 0 <= j < f implies ms[j].0 != name by {
                    if j > 0 {
                        assert(ms[j] == rest[j - 1]);
                    }
                }
            } else {
                assert forall|j: int| 0 <= j < ms.len() implies ms[j].0 != name by {
                    if j > 0 {
                        assert(ms[j] == rest[j - 1]);
                    }
                }
            }
        }
    }
}

/// A forward scan that stopped at a matching name found exactly the index
/// the view-level lookup names.
pub proof fn lemma_first_match_market(ms: Seq<CityMarket>, name: Seq<char>, i: int)
    requires
        0 <= i < ms.len(),
        forall|j: int| 0 <= j < i ==> ms[j].city@ != name,
        ms[i].city@ == name,
    ensures
        find_market_view(market_views(ms), name) == i,
{
    let views = market_views(ms);
    lemma_find_market_view(views, name);
    assert(forall|j: int|
        0 <= j < ms.len() ==> views[j] == (ms[j].city@, ms[j].market.entries@));
    let f = find_market_view(views, name);
    assert(views[i].0 == name);
    if f == -1 {
        assert(views[i].0 != name);
    } else {
        if f < i {
            assert(ms[f].city@ != name);
            assert(views[f].0 == name);
        }
        if f > i {
            assert(views[i].0 != name);
        }
    }
}

/// A forward scan that found no matching name means the view-level lookup
/// finds none either.
pub proof fn lemma_no_match_market(ms: Seq<CityMarket>, name: Seq<char>)
    requires
        forall|j: int| 0 <= j < ms.len() ==> ms[j].city@ != name,
    ensures
        find_market_view(market_views(ms), name) == -1,
{
    let views = market_views(ms);
    lemma_find_market_view(views, name);
    assert(forall|j: int|
        0 <= j < ms.len() ==> views[j] == (ms[j].city@, ms[j].market.entries@));
    let f = find_market_view(views, name);
    if f >= 0 {
        assert(views[f].0 == name);
        assert(ms[f].city@ != name);
    }
}

/// A factor after a trade completion eases it: two hundredths down, floored
/// at one hundredth.
pub open spec fn eased(f: u32) -> u32 {
    if f >= 3 {
        (f - 2) as u32
    } else {
        1u32
    }
}

/// The market list with the supply factor of one settlement's entry for
/// `t` eased; unchanged where the settlement or the entry is missing.
pub open spec fn ease_supply(
    ms: Seq<(Seq<char>, Seq<MarketEntry>)>,
    name: Seq<char>,
    t: ResourceType,
) -> Seq<(Seq<char>, Seq<MarketEntry>)> {
    let mi = find_market_view(ms, name);
    if mi >= 0 {
        let ei = find_entry(ms[mi].1, t);
        if ei >= 0 {
            let e = ms[mi].1[ei];
            ms.update(
                mi,
                (ms[mi].0, ms[mi].1.update(ei, MarketEntry { supply_centi: eased(e.supply_centi), ..e })),
            )
        } else {
            ms
        }
    } else {
        ms
    }
}

/// The market list with the demand factor of one settlement's entry for
/// `t` eased; unchanged where the settlement or the entry is missing.
pub open spec fn ease_demand(
    ms: Seq<(Seq<char>, Seq<MarketEntry>)>,
    name: Seq<char>,
    t: ResourceType,
) -> Seq<(Seq<char>, Seq<MarketEntry>)> {
    let mi = find_market_view(ms, name);
    if mi >= 0 {
        let ei = find_entry(ms[mi].1, t);
        if ei >= 0 {
            let e = ms[mi].1[ei];
            ms.update(
                mi,
                (ms[mi].0, ms[mi].1.update(ei, MarketEntry { demand_centi: eased(e.demand_centi), ..e })),
            )
        } else {
            ms
        }
    } else {
        ms
    }
}

/// One due route's transfer: move the quantity from the source city's
/// ledger to the target's and ease both markets' factors. Succeeds iff
/// both cities exist and the source can cover the quantity; a failed
/// transfer changes nothing.
pub open spec fn route_transfer(
    r: TradeRoute,
    cities: Seq<City>,
    markets: Seq<(Seq<char>, Seq<MarketEntry>)>,
) -> (bool, Seq<City>, Seq<(Seq<char>, Seq<MarketEntry>)>) {
    let si = find_city(cities, r.source_city@);
    let ti = find_city(cities, r.target_city@);
    if si >= 0 && ti >= 0 && cities[si].resources.q(r.resource) >= r.quantity {
        let src = cities[si];
        let c1 = cities.update(
            si,
            City {
                resources: src.resources.with_q(
                    r.resource,
                    (src.resources.q(r.resource) - r.quantity) as u32,
                ),
                ..src
            },
        );
        let tgt = c1[ti];
        let c2 = c1.update(
            ti,
            City {
                resources: tgt.resources.with_q(
                    r.resource,
                    sat_add_u32(tgt.resources.q(r.resource), r.quantity),
                ),
                ..tgt
            },
        );
        let m1 = ease_supply(markets, r.source_city@, r.resource);
        let m2 = ease_demand(m1, r.target_city@, r.resource);
        (true, c2, m2)
    } else {
        (false, cities, markets)
    }
}

/// The whole scheduler pass over a route list: each route's remaining
/// duration drops by one (never below zero); a route reaching zero runs
/// its transfer and leaves the list when the transfer succeeds, and is
/// kept at zero for a retry next tick when it fails.
pub open spec fn run_routes(
    routes: Seq<TradeRoute>,
    kept: Seq<TradeRoute>,
    cities: Seq<City>,
    markets: Seq<(Seq<char>, Seq<MarketEntry>)>,
) -> (Seq<TradeRoute>, Seq<City>, Seq<(Seq<char>, Seq<MarketEntry>)>)
    decreases routes.len(),
{
    if routes.len() == 0 {
        (kept, cities, markets)
    } else {
        let r = routes.first();
        let rest = routes.drop_first();
        let d2: u32 = if r.duration > 0 {
            (r.duration - 1) as u32
        } else {
            0u32
        };
        if d2 > 0 {
            run_routes(rest, kept.push(TradeRoute { duration: d2, ..r }), cities, markets)
        } else {
            let step = route_transfer(TradeRoute { duration: 0u32, ..r }, cities, markets);
            if step.0 {
                run_routes(rest, kept, step.1, step.2)
            } else {
                run_routes(rest, kept.push(TradeRoute { duration: 0u32, ..r }), step.1, step.2)
            }
        }
    }
}

/// A route after one scheduler pass that did not complete it.
pub open spec fn ticked_route(r: TradeRoute) -> TradeRoute {
    TradeRoute { duration: (r.duration - 1) as u32, ..r }
}

/// While every route still has at least two ticks to run, a scheduler pass
/// only counts durations down: every route stays, in order, with one tick
/// less, and no city ledger or market factor moves.
pub proof fn lemma_tick_only_decrements(
    routes: Seq<TradeRoute>,
    kept: Seq<TradeRoute>,
    cities: Seq<City>,
    markets: Seq<(Seq<char>, Seq<MarketEntry>)>,
)
    requires
        forall|i: int| 0 <= i < routes.len() ==> #[trigger] routes[i].duration >= 2,
    ensures
        run_routes(routes, kept, cities, markets).0.len() == kept.len() + routes.len(),
        forall|i: int|
            0 <= i < kept.len() ==> #[trigger] run_routes(routes, kept, cities, markets).0[i]
                == kept[i],
        forall|i: int|
            0 <= i < routes.len() ==> run_routes(routes, kept, cities, markets).0[kept.len() + i]
                == ticked_route(#[trigger] routes[i]),
        run_routes(routes, kept, cities, markets).1 == cities,
        run_routes(routes, kept, cities, markets).2 == markets,
    decreases routes.len(),
{
    if routes.len() > 0 {
        let r0 = routes.first();
        let rest = routes.drop_first();
        assert(forall|i: int| 0 <= i < rest.len() ==> rest[i] == routes[i + 1]);
        assert(routes[0].duration >= 2);
        lemma_tick_only_decrements(rest, kept.push(ticked_route(r0)), cities, markets);
        let out = run_routes(routes, kept, cities, markets).0;
        assert forall|i: int| 0 <= i < routes.len() implies out[kept.len() + i] == ticked_route(
            routes[i],
        ) by {
            if i == 0 {
                assert(out[kept.len() as int] == kept.push(ticked_route(r0))[kept.len() as int]);
            } else {
                assert(out[kept.len() + 1 + (i - 1)] == ticked_route(rest[i - 1]));
            }
        }
    }
}

/// The market list after a price pass on every market.
pub open spec fn repriced_views(
    ms: Seq<(Seq<char>, Seq<MarketEntry>)>,
) -> Seq<(Seq<char>, Seq<MarketEntry>)> {
    ms.map_values(
        |p: (Seq<char>, Seq<MarketEntry>)|
            (p.0, p.1.map_values(|e: MarketEntry| repriced_entry(e))),
    )
}

/// An identical route with another remaining duration.
fn route_with_duration(r: &TradeRoute, duration: u32) -> (r2: TradeRoute)
    ensures
        r2 == (TradeRoute { duration, ..*r }),
{
    TradeRoute {
        source_city: r.source_city.clone(),
        target_city: r.target_city.clone(),
        resource: r.resource,
        quantity: r.quantity,
        price_per_unit: r.price_per_unit,
        duration,
    }
}

/// Index of the first city with the given name, computed.
fn find_city_exec(cities: &Vec<City>, name: &String) -> (r: Option<usize>)
    ensures
        match r {
            Some(i) => i as int == find_city(cities@, name@),
            None => find_city(cities@, name@) == -1,
        },
{
    let n = cities.len();
    let mut i: usize = 0;
    while i < n && !(cities[i].name == *name)
        invariant
            0 <= i <= n == cities@.len(),
            forall|j: int| 0 <= j < i ==> cities@[j].name@ != name@,
        decreases n - i,
    {
        i = i + 1;
    }
    proof {
        lemma_find_city(cities@, name@);
    }
    if i >= n {
        None
    } else {
        Some(i)
    }
}

/// Eases the supply factor of one settlement's entry, in place.
fn ease_supply_exec(markets: &mut Vec<CityMarket>, name: &String, t: ResourceType)
    ensures
        market_views(final(markets)@) == ease_supply(market_views(old(markets)@), name@, t),
{
    let n = markets.len();
    let mut i: usize = 0;
    while i < n && !(markets[i].city == *name)
        invariant
            *markets == *old(markets),
            0 <= i <= n == markets@.len(),
            forall|j: int| 0 <= j < i ==> markets@[j].city@ != name@,
        decreases n - i,
    {
        i = i + 1;
    }
    if i >= n {
        proof {
            lemma_no_match_market(markets@, name@);
        }
        return ;
    }
    proof {
        lemma_first_match_market(markets@, name@, i as int);
    }
    let m = markets[i].market.entries.len();
    let mut k: usize = 0;
    while k < m && !(markets[i].market.entries[k].item.resource == t)
        invariant
            *markets == *old(markets),
            i < markets@.len(),
            0 <= k <= m == markets@[i as int].market.entries@.len(),
            forall|j: int| 0 <= j < k ==> markets@[i as int].market.entries@[j].item.resource != t,
        decreases m - k,
    {
        k = k + 1;
    }
    proof {
        lemma_find_entry(markets@[i as int].market.entries@, t);
        assert(market_views(markets@)[i as int] == (
            markets@[i as int].city@,
            markets@[i as int].market.entries@,
        ));
    }
    if k >= m {
        proof {
            let entries = markets@[i as int].market.entries@;
            let f = find_entry(entries, t);
            if f >= 0 {
                assert(entries[f].item.resource == t);
                assert(entries[f].item.resource != t);
            }
        }
        return ;
    }
    proof {
        let entries = markets@[i as int].market.entries@;
        let f = find_entry(entries, t);
        assert(entries[k as int].item.resource == t);
        if f == -1 {
            assert(entries[k as int].item.resource != t);
        }
        if 0 <= f < k as int {
            assert(entries[f].item.resource == t);
            assert(entries[f].item.resource != t);
        }
        if f > k as int {
            assert(entries[k as int].item.resource != t);
        }
        assert(f == k as int);
    }
    let f0 = markets[i].market.entries[k].supply_centi;
    let f2 = if f0 >= 3 {
        f0 - 2
    } else {
        1
    };
    let er = &mut markets[i].market.entries[k];
    er.supply_centi = f2;
    proof {
        assert(market_views(markets@) =~~= ease_supply(market_views(old(markets)@), name@, t));
    }
}

/// Eases the demand factor of one settlement's entry, in place.
fn ease_demand_exec(markets: &mut Vec<CityMarket>, name: &String, t: ResourceType)
    ensures
        market_views(final(markets)@) == ease_demand(market_views(old(markets)@), name@, t),
{
    let n = markets.len();
    let mut i: usize = 0;
    while i < n && !(markets[i].city == *name)
        invariant
            *markets == *old(markets),
            0 <= i <= n == markets@.len(),
            forall|j: int| 0 <= j < i ==> markets@[j].city@ != name@,
        decreases n - i,
    {
        i = i + 1;
    }
    if i >= n {
        proof {
            lemma_no_match_market(markets@, name@);
        }
        return ;
    }
    proof {
        lemma_first_match_market(markets@, name@, i as int);
    }
    let m = markets[i].market.entries.len();
    let mut k: usize = 0;
    while k < m && !(markets[i].market.entries[k].item.resource == t)
        invariant
            *markets == *old(markets),
            i < markets@.len(),
            0 <= k <= m == markets@[i as int].market.entries@.len(),
            forall|j: int| 0 <= j < k ==> markets@[i as int].market.entries@[j].item.resource != t,
        decreases m - k,
    {
        k = k + 1;
    }
    proof {
        lemma_find_entry(markets@[i as int].market.entries@, t);
        assert(market_views(markets@)[i as int] == (
            markets@[i as int].city@,
            markets@[i as int].market.entries@,
        ));
    }
    if k >= m {
        proof {
            let entries = markets@[i as int].market.entries@;
            let f = find_entry(entries, t);
            if f >= 0 {
                assert(entries[f].item.resource == t);
                assert(entries[f].item.resource != t);
            }
        }
        return ;
    }
    proof {
        let entries = markets@[i as int].market.entries@;
        let f = find_entry(entries, t);
        assert(entries[k as int].item.resource == t);
        if f == -1 {
            assert(entries[k as int].item.resource != t);
        }
        if 0 <= f < k as int {
            assert(entries[f].item.resource == t);
            assert(entries[f].item.resource != t);
        }
        if f > k as int {
            assert(entries[k as int].item.resource != t);
        }
        assert(f == k as int);
    }
    let f0 = markets[i].market.entries[k].demand_centi;
    let f2 = if f0 >= 3 {
        f0 - 2
    } else {
        1
    };
    let er = &mut markets[i].market.entries[k];
    er.demand_centi = f2;
    proof {
        assert(market_views(markets@) =~~= ease_demand(market_views(old(markets)@), name@, t));
    }
}

/// Runs one due route's transfer against the city registry and the
/// markets.
fn execute_route_exec(
    route: &TradeRoute,
    cities: &mut Vec<City>,
    markets: &mut Vec<CityMarket>,
) -> (ok: bool)
    ensures
        ({
            let step = route_transfer(*route, old(cities)@, market_views(old(markets)@));
            &&& ok == step.0
            &&& final(cities)@ == step.1
            &&& market_views(final(markets)@) == step.2
        }),
{
    let si_opt = find_city_exec(cities, &route.source_city);
    let ti_opt = find_city_exec(cities, &route.target_city);
    proof {
        lemma_find_city(cities@, route.source_city@);
        lemma_find_city(cities@, route.target_city@);
    }
    match (si_opt, ti_opt) {
        (Some(si), Some(ti)) => {
            let src_q = cities[si].resources.get(&route.resource);
            if src_q >= route.quantity {
                let src = &mut cities[si];
                let took = src.resources.subtract(&route.resource, route.quantity);
                assert(took);
                let tgt = &mut cities[ti];
                tgt.resources.add(&route.resource, route.quantity);
                ease_supply_exec(markets, &route.source_city, route.resource);
                ease_demand_exec(markets, &route.target_city, route.resource);
                true
            } else {
                false
            }
        },
        _ => false,
    }
}

impl TradeManager {
    pub fn new() -> (m: TradeManager)
        ensures
            m.routes@.len() == 0,
            m.markets@.len() == 0,
    {
        TradeManager { routes: Vec::new(), markets: Vec::new() }
    }

    /// Registers a fresh market for a settlement; an existing market under
    /// the same name is replaced.
    pub fn create_city_market(&mut self, city_name: &str)
        ensures
            final(self).routes@ == old(self).routes@,
            ({
                let views = market_views(old(self).markets@);
                let mi = find_market_view(views, city_name@);
                &&& (mi >= 0 ==> market_views(final(self).markets@) == views.update(
                    mi,
                    (city_name@, Market::initial_entries()),
                ))
                &&& (mi == -1 ==> market_views(final(self).markets@) == views.push(
                    (city_name@, Market::initial_entries()),
                ))
            }),
    {
        let ghost views0 = market_views(old(self).markets@);
        let n = self.markets.len();
        let mut i: usize = 0;
        while i < n && !crate::text::str_eq_string(city_name, &self.markets[i].city)
            invariant
                *self == *old(self),
                0 <= i <= n == self.markets@.len(),
                forall|j: int| 0 <= j < i ==> self.markets@[j].city@ != city_name@,
            decreases n - i,
        {
            i = i + 1;
        }
        if i >= n {
            proof {
                lemma_no_match_market(self.markets@, city_name@);
            }
            let entry = CityMarket { city: city_name.to_owned(), market: Market::new() };
            self.markets.push(entry);
            proof {
                assert(market_views(self.markets@) =~~= views0.push(
                    (city_name@, Market::initial_entries()),
                ));
            }
        } else {
            proof {
                lemma_first_match_market(self.markets@, city_name@, i as int);
            }
            let cm = &mut self.markets[i];
            cm.market = Market::new();
            proof {
                assert(market_views(self.markets@) =~~= views0.update(
                    i as int,
                    (city_name@, Market::initial_entries()),
                ));
            }
        }
    }

    /// The market registered under a settlement name.
    pub fn market_of(&self, city_name: &str) -> (r: Result<&Market, GameError>)
        ensures
            ({
                let views = market_views(self.markets@);
                let mi = find_market_view(views, city_name@);
                match r {
                    Ok(m) => mi >= 0 && m.entries@ == views[mi].1,
                    Err(e) => e == GameError::MarketNotFound && mi == -1,
                }
            }),
    {
        let n = self.markets.len();
        let mut i: usize = 0;
        while i < n && !crate::text::str_eq_string(city_name, &self.markets[i].city)
            invariant
                0 <= i <= n == self.markets@.len(),
                forall|j: int| 0 <= j < i ==> self.markets@[j].city@ != city_name@,
            decreases n - i,
        {
            i = i + 1;
        }
        if i >= n {
            proof {
                lemma_no_match_market(self.markets@, city_name@);
            }
            Err(GameError::MarketNotFound)
        } else {
            proof {
                lemma_first_match_market(self.markets@, city_name@, i as int);
                assert(market_views(self.markets@)[i as int] == (
                    self.markets@[i as int].city@,
                    self.markets@[i as int].market.entries@,
                ));
            }
            Ok(&self.markets[i].market)
        }
    }

    /// Creates a trade route with the fixed starting duration and a price
    /// snapshotted from the source market. Fails, changing nothing, when
    /// either endpoint has no market or the source market does not track
    /// the resource.
    pub fn establish_trade_route(
        &mut self,
        source_city: &str,
        target_city: &str,
        resource: ResourceType,
        quantity: u32,
    ) -> (r: Result<(), GameError>)
        ensures
            final(self).markets@ == old(self).markets@,
            ({
                let views = market_views(old(self).markets@);
                let si = find_market_view(views, source_city@);
                let ti = find_market_view(views, target_city@);
                &&& (si == -1 ==> r == Err::<(), GameError>(GameError::RouteEndpointMissingMarket)
                    && final(self).routes@ == old(self).routes@)
                &&& ((si >= 0 && ti == -1) ==> r == Err::<(), GameError>(
                    GameError::RouteEndpointMissingMarket,
                ) && final(self).routes@ == old(self).routes@)
                &&& ((si >= 0 && ti >= 0) ==> {
                    let ei = find_entry(views[si].1, resource);
                    &&& (ei == -1 ==> r == Err::<(), GameError>(GameError::ResourceUntracked)
                        && final(self).routes@ == old(self).routes@)
                    &&& (ei >= 0 ==> {
                        let added = final(self).routes@.last();
                        &&& r == Ok::<(), GameError>(())
                        &&& final(self).routes@.len() == old(self).routes@.len() + 1
                        &&& final(self).routes@.take(old(self).routes@.len() as int) == old(
                            self,
                        ).routes@
                        &&& added.source_city@ == source_city@
                        &&& added.target_city@ == target_city@
                        &&& added.resource == resource
                        &&& added.quantity == quantity
                        &&& added.price_per_unit == views[si].1[ei].item.current_price
                        &&& added.duration == ROUTE_DURATION
                    })
                })
            }),
    {
        let ghost views0 = market_views(old(self).markets@);
        let n = self.markets.len();
        let mut si: usize = 0;
        while si < n && !crate::text::str_eq_string(source_city, &self.markets[si].city)
            invariant
                *self == *old(self),
                0 <= si <= n == self.markets@.len(),
                forall|j: int| 0 <= j < si ==> self.markets@[j].city@ != source_city@,
            decreases n - si,
        {
            si = si + 1;
        }
        if si >= n {
            proof {
                lemma_no_match_market(self.markets@, source_city@);
            }
            return Err(GameError::RouteEndpointMissingMarket);
        }
        proof {
            lemma_first_match_market(self.markets@, source_city@, si as int);
            assert(views0[si as int] == (
                self.markets@[si as int].city@,
                self.markets@[si as int].market.entries@,
            ));
        }
        let mut ti: usize = 0;
        while ti < n && !crate::text::str_eq_string(target_city, &self.markets[ti].city)
            invariant
                *self == *old(self),
                0 <= ti <= n == self.markets@.len(),
                forall|j: int| 0 <= j < ti ==> self.markets@[j].city@ != target_city@,
            decreases n - ti,
        {
            ti = ti + 1;
        }
        if ti >= n {
            proof {
                lemma_no_match_market(self.markets@, target_city@);
            }
            return Err(GameError::RouteEndpointMissingMarket);
        }
        proof {
            lemma_first_match_market(self.markets@, target_city@, ti as int);
        }
        let m = self.markets[si].market.entries.len();
        let mut k: usize = 0;
        while k < m && !(self.markets[si].market.entries[k].item.resource == resource)
            invariant
                *self == *old(self),
                si < self.markets@.len(),
                0 <= k <= m == self.markets@[si as int].market.entries@.len(),
                forall|j: int|
                    0 <= j < k ==> self.markets@[si as int].market.entries@[j].item.resource
                        != resource,
            decreases m - k,
        {
            k = k + 1;
        }
        proof {
            lemma_find_entry(old(self).markets@[si as int].market.entries@, resource);
        }
        if k >= m {
            assert(find_entry(views0[si as int].1, resource) == -1);
            return Err(GameError::ResourceUntracked);
        }
        assert(find_entry(views0[si as int].1, resource) == k);
        let price = self.markets[si].market.entries[k].item.current_price;
        let route = TradeRoute {
            source_city: source_city.to_owned(),
            target_city: target_city.to_owned(),
            resource,
            quantity,
            price_per_unit: price,
            duration: ROUTE_DURATION,
        };
        self.routes.push(route);
        proof {
            assert(final(self).routes@.take(old(self).routes@.len() as int) =~= old(self).routes@);
        }
        Ok(())
    }

    /// One scheduler tick: every route's duration drops by one (floored at
    /// zero); a route reaching zero runs its transfer against the city
    /// registry and leaves the list when the transfer succeeds. A failed
    /// transfer keeps the route at zero for a retry next tick, and leaves
    /// the cities and markets untouched. Afterwards every market runs one
    /// price pass.
    pub fn update_trade_routes(&mut self, cities: &mut Vec<City>)
        ensures
            ({
                let step = run_routes(
                    old(self).routes@,
                    Seq::<TradeRoute>::empty(),
                    old(cities)@,
                    market_views(old(self).markets@),
                );
                &&& final(self).routes@ == step.0
                &&& final(cities)@ == step.1
                &&& market_views(final(self).markets@) == repriced_views(step.2)
            }),
    {
        let ghost target = run_routes(
            old(self).routes@,
            Seq::<TradeRoute>::empty(),
            old(cities)@,
            market_views(old(self).markets@),
        );
        let n = self.routes.len();
        let mut kept: Vec<TradeRoute> = Vec::new();
        let mut i: usize = 0;
        proof {
            assert(old(self).routes@.skip(0) =~= old(self).routes@);
        }
        while i < n
            invariant
                0 <= i <= n == self.routes@.len(),
                self.routes@ == old(self).routes@,
                run_routes(
                    old(self).routes@.skip(i as int),
                    kept@,
                    cities@,
                    market_views(self.markets@),
                ) == target,
            decreases n - i,
        {
            proof {
                let s = old(self).routes@;
                assert(s.skip(i as int).first() == s[i as int]);
                assert(s.skip(i as int).drop_first() =~= s.skip(i as int + 1));
            }
            let d = self.routes[i].duration;
            let d2: u32 = if d > 0 {
                d - 1
            } else {
                0
            };
            if d2 > 0 {
                let nr = route_with_duration(&self.routes[i], d2);
                kept.push(nr);
            } else {
                let due = route_with_duration(&self.routes[i], 0);
                let ok = execute_route_exec(&due, cities, &mut self.markets);
                if !ok {
                    kept.push(due);
                }
            }
            i = i + 1;
        }
        proof {
            assert(old(self).routes@.skip(n as int) =~= Seq::<TradeRoute>::empty());
        }
        self.routes = kept;
        let ghost markets_pre = self.markets@;
        let m = self.markets.len();
        let mut j: usize = 0;
        while j < m
            invariant
                0 <= j <= m == self.markets@.len(),
                self.routes@ == target.0,
                forall|k: int| j <= k < m ==> self.markets@[k] == markets_pre[k],
                forall|k: int|
                    0 <= k < j ==> self.markets@[k].city@ == markets_pre[k].city@
                        && self.markets@[k].market.entries@ == markets_pre[k].market.entries@
                        .map_values(|e: MarketEntry| repriced_entry(e)),
            decreases m - j,
        {
            let cm = &mut self.markets[j];
            cm.market.update_prices();
            j = j + 1;
        }
        proof {
            assert(market_views(self.markets@) =~~= repriced_views(market_views(markets_pre)));
        }
    }
}

} // verus!
