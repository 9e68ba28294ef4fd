//! What only the host can provide: the time, randomness, fresh identifiers.
//!
//! Each function here makes exactly one call into an outside crate. Their
//! results depend on the clock or on chance, so the contracts state only
//! what holds of every outcome.
use rand::Rng;
use vstd::prelude::*;

verus! {

/// Relies on chrono::Utc::now and DateTime::timestamp_millis: the wall-clock
/// instant in milliseconds since the Unix epoch. Nothing is promised of the
/// value. (Utc::now itself refuses a clock before the epoch, so the
/// conversion's zero fallback is never taken in practice.)
#[verifier::external_body]
pub(crate) fn now_unix_millis() -> (t: u64) {
    u64::try_from(chrono::Utc::now().timestamp_millis()).unwrap_or(0)
}

/// Relies on rand::Rng::gen_range over a thread-local generator, with an
/// inclusive range: some integer between the bounds; which one is chance.
#[verifier::external_body]
pub(crate) fn draw_in_range(lo: i64, hi: i64) -> (r: i64)
    requires
        lo <= hi,
    ensures
        lo <= r <= hi,
{
    rand::thread_rng().gen_range(lo..=hi)
}

/// Relies on uuid::Uuid::new_v4 and its hyphenated Display form: 36
/// characters of identifier; the value is chance.
#[verifier::external_body]
pub(crate) fn new_uuid_string() -> (s: String)
    ensures
        s@.len() == 36,
{
    uuid::Uuid::new_v4().to_string()
}

} // verus!
