//! Small text helpers shared by the lookup tables keyed by name.

use vstd::prelude::*;

verus! {

/// Whether a borrowed string slice spells the same characters as an owned
/// string.
pub fn str_eq_string(a: &str, b: &String) -> (r: bool)
    ensures
        r == (a@ == b@),
{
    let owned: String = a.to_owned();
    owned == *b
}

} // verus!
