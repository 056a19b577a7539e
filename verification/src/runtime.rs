//! The two ambient inputs the chain needs from its host: the current time
//! and fresh identifiers. Nothing is promised of either value beyond its
//! shape; callers state what holds of every outcome.

use vstd::prelude::*;

verus! {

/// Relies on `chrono::Utc::now`: seconds since the Unix epoch.
/// The value depends on the wall clock, so nothing is promised of it.
#[verifier::external_body]
pub fn now_seconds() -> u64 {
    let t = chrono::Utc::now().timestamp();
    if t < 0 {
        0
    } else {
        t as u64
    }
}

/// Relies on `uuid::Uuid::new_v4` and its `Display` form: a random
/// RFC-4122 identifier always renders as 36 hyphenated hex characters.
/// The value itself is random, so only its length is promised.
#[verifier::external_body]
pub fn new_id() -> (r: String)
    ensures
        r@.len() == 36,
{
    uuid::Uuid::new_v4().to_string()
}

} // verus!
