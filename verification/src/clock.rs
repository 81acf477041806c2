//! The wall clock.
use vstd::prelude::*;

verus! {

/// The current time as an RFC 3339 string: std's `SystemTime::now()`,
/// turned into chrono's `DateTime<Utc>` by its `From<SystemTime>` impl (which
/// takes a clock set before 1970 as a negative timestamp rather than failing,
/// and unwraps only for a time some 262,000 years away, beyond what system
/// clocks hold), then `to_rfc3339`. The value depends on the clock, so
/// nothing is stated of it.
#[verifier::external_body]
pub(crate) fn now_rfc3339() -> (s: String) {
    chrono::DateTime::<chrono::Utc>::from(std::time::SystemTime::now()).to_rfc3339()
}

/// Nanoseconds since the Unix epoch now: std's `SystemTime::now()` turned
/// into chrono's `DateTime<Utc>` as in `now_rfc3339` (a clock before 1970
/// gives a negative count), then `timestamp_nanos_opt`, which is `None` past
/// the range of `i64`. The value depends on the clock, so nothing is stated
/// of it.
#[verifier::external_body]
fn now_timestamp_nanos() -> (n: Option<i64>) {
    chrono::DateTime::<chrono::Utc>::from(std::time::SystemTime::now()).timestamp_nanos_opt()
}

/// The nanoseconds since the Unix epoch that a reading `t` of chrono's
/// clock stands for: 0 for a time before the epoch or beyond `i64`.
pub open spec fn nanos_of_reading(t: Option<i64>) -> u64 {
    match t {
        Some(n) => if n >= 0 {
            n as u64
        } else {
            0
        },
        None => 0,
    }
}

/// `n` is what some reading of the clock stands for.
pub open spec fn clock_reading(n: u64) -> bool {
    exists|t: Option<i64>| #[trigger] nanos_of_reading(t) == n
}

/// A value the clock can give is never beyond `i64::MAX`.
pub proof fn lemma_clock_reading_bound(n: u64)
    requires
        clock_reading(n),
    ensures
        n <= i64::MAX,
{
    let t = choose|t: Option<i64>| #[trigger] nanos_of_reading(t) == n;
    assert(nanos_of_reading(t) == n);
}

/// Nanoseconds since the Unix epoch of a clock reading (see `nanos_of_reading`).
pub fn nanos_since_epoch(t: Option<i64>) -> (n: u64)
    ensures
        n == nanos_of_reading(t),
{
    match t {
        Some(n) => if n >= 0 {
            n as u64
        } else {
            0
        },
        None => 0,
    }
}

/// Nanoseconds since the Unix epoch now; 0 for a clock set before it or
/// beyond the range of `i64`.
pub(crate) fn unix_time_nanos() -> (n: u64)
    ensures
        clock_reading(n),
{
    let t = now_timestamp_nanos();
    let n = nanos_since_epoch(t);
    assert(nanos_of_reading(t) == n);
    n
}

} // verus!
