use vstd::prelude::*;

verus! {

/// Relies on `uuid::Uuid::new_v4`: a version-4 UUID drawn from the operating
/// system's random source, handed on as its 128-bit value. The value is
/// random, so nothing is promised of it; callers that need freshness test it
/// against what they already hold.
#[verifier::external_body]
pub(crate) fn fresh_id() -> u128 {
    uuid::Uuid::new_v4().as_u128()
}

/// Relies on `chrono::Utc::now`: the current wall-clock time, handed on as
/// microseconds since the Unix epoch. The value depends on the clock, so
/// nothing is promised of it.
#[verifier::external_body]
pub(crate) fn now_micros() -> i64 {
    chrono::Utc::now().timestamp_micros()
}

} // verus!
