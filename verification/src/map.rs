//! The world registry: the set of cities together with a coarse map
//! placeholder used by the overview screen.

use vstd::prelude::*;
use crate::city::City;

verus! {

/// A coarse raster of the world, one byte per cell.
#[derive(Debug)]
pub struct WorldMap {
    pub width: u64,
    pub height: u64,
    pub terrain: Vec<u8>,
}

impl Default for WorldMap {
    fn default() -> (r: WorldMap)
        ensures
            r.width == 100,
            r.height == 100,
            r.terrain@.len() == 0,
    {
        WorldMap { width: 100, height: 100, terrain: Vec::new() }
    }
}

/// The registry of all cities in one game world.
#[derive(Debug)]
pub struct World {
    seed: u64,
    map: WorldMap,
    cities: Vec<City>,
}

impl World {
    /// The registered cities, in registration order.
    pub closed spec fn cities_spec(self) -> Seq<City> {
        self.cities@
    }

    pub fn new() -> (w: World)
        ensures
            w.cities_spec().len() == 0,
    {
        World { seed: 0, map: WorldMap::default(), cities: Vec::new() }
    }

    pub fn add_city(&mut self, city: City)
        ensures
            final(self).cities_spec() == old(self).cities_spec().push(city),
    {
        self.cities.push(city);
    }

    pub fn get_cities(&self) -> (r: &Vec<City>)
        ensures
            r@ == self.cities_spec(),
    {
        &self.cities
    }
}

} // verus!
