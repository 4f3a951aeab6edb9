//! The tile map of the game world and its procedural generator. The map is
//! a dense rectangle of tiles; the generator scatters water bodies and
//! resource deposits over it from a seedable random stream.

use vstd::prelude::*;
use vstd::arithmetic::div_mod::lemma_fundamental_div_mod_converse;
use crate::resources::ResourceType;
use crate::rng;

verus! {

/// One cell of the world map.
#[derive(Debug, PartialEq)]
pub enum TerrainTile {
    Land,
    Water,
    Mountain,
    Forest,
    Desert,
    /// Occupied by the named building.
    Building(String),
    /// A deposit of the given resource kind.
    ResourceSpot(ResourceType),
    /// Occupied by the named city.
    City(String),
    /// Revealed by a map expansion but not generated yet.
    Unknown,
}

/// An identical tile value.
fn clone_tile(t: &TerrainTile) -> (r: TerrainTile)
    ensures
        r == *t,
{
    match t {
        TerrainTile::Land => TerrainTile::Land,
        TerrainTile::Water => TerrainTile::Water,
        TerrainTile::Mountain => TerrainTile::Mountain,
        TerrainTile::Forest => TerrainTile::Forest,
        TerrainTile::Desert => TerrainTile::Desert,
        TerrainTile::Building(name) => TerrainTile::Building(name.clone()),
        TerrainTile::ResourceSpot(rt) => TerrainTile::ResourceSpot(*rt),
        TerrainTile::City(name) => TerrainTile::City(name.clone()),
        TerrainTile::Unknown => TerrainTile::Unknown,
    }
}

/// A flat coordinate stays inside the rectangle.
proof fn lemma_flat_bounds(x: int, y: int, w: int, h: int)
    requires
        0 <= x < w,
        0 <= y < h,
    ensures
        0 <= y * w + x < w * h,
{
    assert(0 <= y * w + x < w * h) by (nonlinear_arith)
        requires
            0 <= x < w,
            0 <= y < h,
    ;
}

/// Flat coordinates are unambiguous.
proof fn lemma_flat_injective(x1: int, y1: int, x2: int, y2: int, w: int)
    requires
        0 <= x1 < w,
        0 <= x2 < w,
        y1 >= 0,
        y2 >= 0,
        y1 * w + x1 == y2 * w + x2,
    ensures
        x1 == x2 && y1 == y2,
{
    assert(x1 == x2 && y1 == y2) by (nonlinear_arith)
        requires
            0 <= x1 < w,
            0 <= x2 < w,
            y1 >= 0,
            y2 >= 0,
            y1 * w + x1 == y2 * w + x2,
    ;
}

/// A dense rectangular tile map.
#[derive(Debug)]
pub struct WorldMap {
    width: u64,
    height: u64,
    terrain: Vec<TerrainTile>,
}

impl WorldMap {
    pub closed spec fn spec_width(self) -> u64 {
        self.width
    }

    pub closed spec fn spec_height(self) -> u64 {
        self.height
    }

    /// Well-formedness: the rectangle is fully backed by tiles and its
    /// dimensions keep every flat index inside the address space.
    pub closed spec fn wf(self) -> bool {
        &&& self.width <= 0x7fff_ffff
        &&& self.height <= 0x7fff_ffff
        &&& self.width * self.height <= 0xffff_ffff
        &&& self.terrain@.len() == self.width * self.height
    }

    /// The tile stored at a coordinate (meaningful inside the bounds).
    pub closed spec fn tile_at(self, x: int, y: int) -> TerrainTile {
        self.terrain@[y * self.width + x]
    }

    pub open spec fn in_bounds(self, x: int, y: int) -> bool {
        0 <= x < self.spec_width() && 0 <= y < self.spec_height()
    }

    /// A fresh map has every tile set to land.
    pub fn new(width: u64, height: u64) -> (r: WorldMap)
        requires
            width <= 0x7fff_ffff,
            height <= 0x7fff_ffff,
            width * height <= 0xffff_ffff,
        ensures
            r.wf(),
            r.spec_width() == width,
            r.spec_height() == height,
            forall|x: int, y: int| r.in_bounds(x, y) ==> r.tile_at(x, y) == TerrainTile::Land,
    {
        let total = (width * height) as usize;
        let mut terrain: Vec<TerrainTile> = Vec::new();
        let mut i: usize = 0;
        while i < total
            invariant
                0 <= i <= total,
                terrain@.len() == i,
                forall|j: int| 0 <= j < i ==> terrain@[j] == TerrainTile::Land,
            decreases total - i,
        {
            terrain.push(TerrainTile::Land);
            i = i + 1;
        }
        let r = WorldMap { width, height, terrain };
        proof {
            assert forall|x: int, y: int| r.in_bounds(x, y) implies r.tile_at(x, y)
                == TerrainTile::Land by {
                lemma_flat_bounds(x, y, width as int, height as int);
            }
        }
        r
    }

    pub fn get_width(&self) -> (r: u64)
        ensures
            r == self.spec_width(),
    {
        self.width
    }

    pub fn get_height(&self) -> (r: u64)
        ensures
            r == self.spec_height(),
    {
        self.height
    }

    /// Writes one tile; a coordinate outside the bounds changes nothing.
    pub fn set_tile(&mut self, x: i32, y: i32, tile: TerrainTile)
        requires
            old(self).wf(),
        ensures
            final(self).wf(),
            final(self).spec_width() == old(self).spec_width(),
            final(self).spec_height() == old(self).spec_height(),
            old(self).in_bounds(x as int, y as int) ==> forall|a: int, b: int|
                final(self).in_bounds(a, b) ==> final(self).tile_at(a, b) == (if a == x && b == y {
                    tile
                } else {
                    old(self).tile_at(a, b)
                }),
            !old(self).in_bounds(x as int, y as int) ==> *final(self) == *old(self),
    {
        if x >= 0 && y >= 0 && (x as u64) < self.width && (y as u64) < self.height {
            proof {
                lemma_flat_bounds(x as int, y as int, self.width as int, self.height as int);
            }
            let idx = ((y as u64) * self.width + (x as u64)) as usize;
            let slot = &mut self.terrain[idx];
            *slot = tile;
            proof {
                assert forall|a: int, b: int| self.in_bounds(a, b) implies self.tile_at(a, b) == (
                    if a == x && b == y {
                        tile
                    } else {
                        old(self).tile_at(a, b)
                    }
                ) by {
                    lemma_flat_bounds(a, b, self.width as int, self.height as int);
                    if b * self.width + a == idx {
                        lemma_flat_injective(a, b, x as int, y as int, self.width as int);
                    }
                }
            }
        }
    }

    /// Reads one tile; a coordinate outside the bounds yields nothing.
    pub fn get_tile(&self, x: i32, y: i32) -> (r: Option<&TerrainTile>)
        requires
            self.wf(),
        ensures
            self.in_bounds(x as int, y as int) ==> (match r {
                Some(t) => *t == self.tile_at(x as int, y as int),
                None => false,
            }),
            !self.in_bounds(x as int, y as int) ==> r is None,
    {
        if x >= 0 && y >= 0 && (x as u64) < self.width && (y as u64) < self.height {
            proof {
                lemma_flat_bounds(x as int, y as int, self.width as int, self.height as int);
            }
            let idx = ((y as u64) * self.width + (x as u64)) as usize;
            Some(&self.terrain[idx])
        } else {
            None
        }
    }

    /// Grows the rectangle; tiles already generated stay as they are and
    /// the newly revealed cells read as unknown.
    pub fn expand_map(&mut self, new_width: u64, new_height: u64)
        requires
            old(self).wf(),
            new_width >= old(self).spec_width(),
            new_height >= old(self).spec_height(),
            new_width <= 0x7fff_ffff,
            new_height <= 0x7fff_ffff,
            new_width * new_height <= 0xffff_ffff,
        ensures
            final(self).wf(),
            final(self).spec_width() == new_width,
            final(self).spec_height() == new_height,
            forall|a: int, b: int|
                old(self).in_bounds(a, b) ==> final(self).tile_at(a, b) == old(self).tile_at(a, b),
            forall|a: int, b: int|
                final(self).in_bounds(a, b) && !old(self).in_bounds(a, b) ==> final(self).tile_at(
                    a,
                    b,
                ) == TerrainTile::Unknown,
    {
        let ow = self.width;
        let oh = self.height;
        let total = (new_width * new_height) as usize;
        let mut fresh: Vec<TerrainTile> = Vec::new();
        let mut k: usize = 0;
        while k < total
            invariant
                old(self).wf(),
                *self == *old(self),
                ow == old(self).spec_width(),
                oh == old(self).spec_height(),
                new_width >= ow,
                new_height >= oh,
                new_width <= 0x7fff_ffff,
                new_height <= 0x7fff_ffff,
                total == new_width * new_height <= 0xffff_ffff,
                0 <= k <= total,
                fresh@.len() == k,
                forall|j: int|
                    0 <= j < k ==> fresh@[j] == (if j % (new_width as int) < ow && j / (
                    new_width as int) < oh {
                        old(self).tile_at(j % (new_width as int), j / (new_width as int))
                    } else {
                        TerrainTile::Unknown
                    }),
            decreases total - k,
        {
            assert(new_width > 0) by {
                if new_width == 0 {
                    assert(total == 0);
                }
            }
            let x = (k as u64) % new_width;
            let y = (k as u64) / new_width;
            proof {
                assert(y < new_height) by (nonlinear_arith)
                    requires
                        y == (k as u64) / new_width,
                        (k as u64) < new_width * new_height,
                        new_width > 0,
                ;
            }
            let tile = if x < ow && y < oh {
                proof {
                    lemma_flat_bounds(x as int, y as int, ow as int, oh as int);
                }
                let idx = (y * ow + x) as usize;
                clone_tile(&self.terrain[idx])
            } else {
                TerrainTile::Unknown
            };
            fresh.push(tile);
            k = k + 1;
        }
        self.terrain = fresh;
        self.width = new_width;
        self.height = new_height;
        proof {
            let nw = new_width as int;
            assert forall|a: int, b: int| old(self).in_bounds(a, b) implies self.tile_at(a, b)
                == old(self).tile_at(a, b) by {
                lemma_flat_bounds(a, b, nw, new_height as int);
                lemma_fundamental_div_mod_converse(b * nw + a, nw, b, a);
            }
            assert forall|a: int, b: int|
                self.in_bounds(a, b) && !old(self).in_bounds(a, b) implies self.tile_at(a, b)
                == TerrainTile::Unknown by {
                lemma_flat_bounds(a, b, nw, new_height as int);
                lemma_fundamental_div_mod_converse(b * nw + a, nw, b, a);
            }
        }
    }

    /// Marks an existing cell as occupied by the named building.
    pub fn add_building(&mut self, x: i32, y: i32, building_name: String)
        requires
            old(self).wf(),
        ensures
            final(self).wf(),
            final(self).spec_width() == old(self).spec_width(),
            final(self).spec_height() == old(self).spec_height(),
            old(self).in_bounds(x as int, y as int) ==> forall|a: int, b: int|
                final(self).in_bounds(a, b) ==> final(self).tile_at(a, b) == (if a == x && b == y {
                    TerrainTile::Building(building_name)
                } else {
                    old(self).tile_at(a, b)
                }),
            !old(self).in_bounds(x as int, y as int) ==> *final(self) == *old(self),
    {
        self.set_tile(x, y, TerrainTile::Building(building_name));
    }

    /// Marks an existing cell as occupied by the named city.
    pub fn add_city(&mut self, x: i32, y: i32, city_name: String)
        requires
            old(self).wf(),
        ensures
            final(self).wf(),
            final(self).spec_width() == old(self).spec_width(),
            final(self).spec_height() == old(self).spec_height(),
            old(self).in_bounds(x as int, y as int) ==> forall|a: int, b: int|
                final(self).in_bounds(a, b) ==> final(self).tile_at(a, b) == (if a == x && b == y {
                    TerrainTile::City(city_name)
                } else {
                    old(self).tile_at(a, b)
                }),
            !old(self).in_bounds(x as int, y as int) ==> *final(self) == *old(self),
    {
        self.set_tile(x, y, TerrainTile::City(city_name));
    }
}

/// A tile kind the generator can produce.
pub open spec fn natural_tile(t: TerrainTile) -> bool {
    t == TerrainTile::Land || t == TerrainTile::Water || t is ResourceSpot
}

/// The procedural world generator, seeded for reproducible runs.
pub struct WorldGenerator {
    seed: u64,
    rng: rand::rngs::StdRng,
}

impl WorldGenerator {
    /// Seeds the generator; without an explicit seed a random one is
    /// drawn.
    pub fn new(seed: Option<u64>) -> WorldGenerator {
        let s = match seed {
            Some(v) => v,
            None => rng::random_u64(),
        };
        WorldGenerator { seed: s, rng: rng::seed_rng(s) }
    }

    /// Generates a fresh map: all land, then water bodies, then resource
    /// deposits. Every tile comes out as land, water, or a deposit.
    pub fn generate(&mut self, width: u64, height: u64) -> (w: WorldMap)
        requires
            width <= 0x7fff_ffff,
            height <= 0x7fff_ffff,
            width * height <= 0xffff_ffff,
        ensures
            w.wf(),
            w.spec_width() == width,
            w.spec_height() == height,
            forall|a: int, b: int| w.in_bounds(a, b) ==> natural_tile(w.tile_at(a, b)),
    {
        let mut world = WorldMap::new(width, height);
        self.generate_water_bodies(&mut world);
        self.generate_resources(&mut world);
        world
    }

    /// Scatters water bodies: one for every twenty tiles, each a rough
    /// disc of random size. Tiles only ever change to water.
    fn generate_water_bodies(&mut self, world: &mut WorldMap)
        requires
            old(world).wf(),
        ensures
            final(world).wf(),
            final(world).spec_width() == old(world).spec_width(),
            final(world).spec_height() == old(world).spec_height(),
            forall|a: int, b: int|
                final(world).in_bounds(a, b) ==> (final(world).tile_at(a, b) == old(
                    world,
                ).tile_at(a, b) || final(world).tile_at(a, b) == TerrainTile::Water),
    {
        let w = world.get_width();
        let h = world.get_height();
        if w == 0 || h == 0 {
            return ;
        }
        let count = w * h / 20;
        let mut c: u64 = 0;
        while c < count
            invariant
                world.wf(),
                world.spec_width() == old(world).spec_width() == w,
                world.spec_height() == old(world).spec_height() == h,
                w > 0,
                h > 0,
                w <= 0x7fff_ffff,
                h <= 0x7fff_ffff,
                forall|a: int, b: int|
                    world.in_bounds(a, b) ==> (world.tile_at(a, b) == old(world).tile_at(a, b)
                        || world.tile_at(a, b) == TerrainTile::Water),
            decreases count - c,
        {
            let x = rng::rng_below(&mut self.rng, w);
            let y = rng::rng_below(&mut self.rng, h);
            let size = 3 + rng::rng_below(&mut self.rng, 7) as u32;
            self.create_water_body(world, x as i32, y as i32, size);
            c = c + 1;
        }
    }

    /// Fills a rough disc around a center with water: a cell joins the
    /// body when its distance, nudged by noise, stays within the radius.
    fn create_water_body(&mut self, world: &mut WorldMap, x: i32, y: i32, size: u32)
        requires
            old(world).wf(),
            size <= 16,
        ensures
            final(world).wf(),
            final(world).spec_width() == old(world).spec_width(),
            final(world).spec_height() == old(world).spec_height(),
            forall|a: int, b: int|
                final(world).in_bounds(a, b) ==> (final(world).tile_at(a, b) == old(
                    world,
                ).tile_at(a, b) || final(world).tile_at(a, b) == TerrainTile::Water),
    {
        let s = size as i64;
        let mut dx: i64 = -s;
        while dx <= s
            invariant
                world.wf(),
                world.spec_width() == old(world).spec_width(),
                world.spec_height() == old(world).spec_height(),
                -17 <= dx <= 17,
                s == size <= 16,
                forall|a: int, b: int|
                    world.in_bounds(a, b) ==> (world.tile_at(a, b) == old(world).tile_at(a, b)
                        || world.tile_at(a, b) == TerrainTile::Water),
            decreases s - dx + 1,
        {
            let mut dy: i64 = -s;
            while dy <= s
                invariant
                    world.wf(),
                    world.spec_width() == old(world).spec_width(),
                    world.spec_height() == old(world).spec_height(),
                    -17 <= dx <= 17,
                    -17 <= dy <= 17,
                    s == size <= 16,
                    forall|a: int, b: int|
                        world.in_bounds(a, b) ==> (world.tile_at(a, b) == old(world).tile_at(a, b)
                            || world.tile_at(a, b) == TerrainTile::Water),
                decreases s - dy + 1,
            {
                let noise = rng::rng_below(&mut self.rng, 30) as i64 - 15;
                proof {
                    assert(0 <= dx * dx <= 289 && 0 <= dy * dy <= 289) by (nonlinear_arith)
                        requires
                            -17 <= dx <= 17,
                            -17 <= dy <= 17,
                    ;
                }
                let lhs = (dx * dx + dy * dy) * 100;
                let rim = 10 * s + noise;
                proof {
                    assert(rim >= 0 ==> rim * rim <= 30625) by (nonlinear_arith)
                        requires
                            rim <= 175,
                    ;
                }
                if rim >= 0 && lhs <= rim * rim {
                    let nx = x as i64 + dx;
                    let ny = y as i64 + dy;
                    if nx >= -0x8000_0000 && nx <= 0x7fff_ffff && ny >= -0x8000_0000 && ny
                        <= 0x7fff_ffff {
                        world.set_tile(nx as i32, ny as i32, TerrainTile::Water);
                    }
                }
                dy = dy + 1;
            }
            dx = dx + 1;
        }
    }

    /// Scatters resource deposits: one attempt for about every thirty
    /// tiles; only plain land turns into a deposit.
    fn generate_resources(&mut self, world: &mut WorldMap)
        requires
            old(world).wf(),
        ensures
            final(world).wf(),
            final(world).spec_width() == old(world).spec_width(),
            final(world).spec_height() == old(world).spec_height(),
            forall|a: int, b: int|
                final(world).in_bounds(a, b) ==> (final(world).tile_at(a, b) == old(
                    world,
                ).tile_at(a, b) || final(world).tile_at(a, b) is ResourceSpot),
    {
        let w = world.get_width();
        let h = world.get_height();
        if w == 0 || h == 0 {
            return ;
        }
        let count = w * h * 3 / 100;
        let mut c: u64 = 0;
        while c < count
            invariant
                world.wf(),
                world.spec_width() == old(world).spec_width() == w,
                world.spec_height() == old(world).spec_height() == h,
                w > 0,
                h > 0,
                w <= 0x7fff_ffff,
                h <= 0x7fff_ffff,
                forall|a: int, b: int|
                    world.in_bounds(a, b) ==> (world.tile_at(a, b) == old(world).tile_at(a, b)
                        || world.tile_at(a, b) is ResourceSpot),
            decreases count - c,
        {
            let x = rng::rng_below(&mut self.rng, w) as i32;
            let y = rng::rng_below(&mut self.rng, h) as i32;
            let is_land = match world.get_tile(x, y) {
                Some(tile) => match tile {
                    TerrainTile::Land => true,
                    _ => false,
                },
                None => false,
            };
            if is_land {
                let pick = rng::rng_below(&mut self.rng, 4);
                let resource = if pick == 0 {
                    ResourceType::Wood
                } else if pick == 1 {
                    ResourceType::Stone
                } else if pick == 2 {
                    ResourceType::Gold
                } else {
                    ResourceType::Iron
                };
                world.set_tile(x, y, TerrainTile::ResourceSpot(resource));
            }
            c = c + 1;
        }
    }
}

} // verus!
