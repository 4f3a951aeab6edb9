//! The interface tradable items expose to the economy. Implementations
//! belong to content packs outside this crate.

use vstd::prelude::*;

verus! {

pub trait Item {
    fn name(&self) -> String;

    fn description(&self) -> String;

    fn price(&self) -> u32;
}

} // verus!
