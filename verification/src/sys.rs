//! The two effects the store operations need from outside: a fresh UUID
//! and the current time.

use vstd::prelude::*;

verus! {

/// Relies on uuid's `Uuid::new_v4`: a randomly generated version-4 UUID.
/// Nothing can be promised of the value.
#[verifier::external_body]
pub(crate) fn new_uuid() -> (r: u128) {
    uuid::Uuid::new_v4().as_u128()
}

/// Relies on chrono's `Utc::now` and `DateTime::timestamp_millis`:
/// milliseconds since the Unix epoch. `Utc::now` does not return a time
/// before the epoch, so the value is never negative; beyond that nothing
/// can be promised of it.
#[verifier::external_body]
pub(crate) fn now_millis() -> (r: i64)
    ensures
        r >= 0,
{
    chrono::Utc::now().timestamp_millis()
}

} // verus!
