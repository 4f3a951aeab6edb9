//! The one clock call the core makes. Timestamps are plain seconds; only
//! this wrapper touches the time library.

use vstd::prelude::*;

verus! {

/// Relies on chrono's `Utc::now`: seconds since the Unix epoch. The value
/// depends on the wall clock, so nothing is promised of it.
#[verifier::external_body]
pub fn now_seconds() -> i64 {
    chrono::Utc::now().timestamp()
}

} // verus!
