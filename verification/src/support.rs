//! Wrappers around the outside world: the clock and fresh identifiers.
//! These are the only nondeterministic inputs the services consume.

use vstd::prelude::*;

verus! {

/// Relies on chrono's `Utc::now` and `timestamp_millis`: the current wall
/// clock as milliseconds since the Unix epoch. Nothing is promised of the
/// value; callers treat it as an arbitrary timestamp.
#[verifier::external_body]
pub fn now_millis() -> i64 {
    chrono::Utc::now().timestamp_millis()
}

/// Relies on uuid's `Uuid::new_v4` and its hyphenated lower-case
/// `Display` form: a random identifier rendered as exactly 36 characters.
#[verifier::external_body]
pub fn fresh_uuid() -> (r: String)
    ensures
        r@.len() == 36,
{
    uuid::Uuid::new_v4().to_string()
}

} // verus!
