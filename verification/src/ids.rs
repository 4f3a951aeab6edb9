//! Identifier generation for aggregate roots. Building ids inside a city
//! come from a verified counter instead; only city ids use this.

use vstd::prelude::*;

verus! {

/// Relies on uuid's `Uuid::new_v4`, rendered in canonical text form: a
/// fresh random identifier. Nothing is promised of the value; no city
/// logic depends on these ids being distinct.
#[verifier::external_body]
pub fn fresh_city_id() -> String {
    uuid::Uuid::new_v4().to_string()
}

} // verus!
