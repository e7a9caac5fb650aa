//! The wall clock, in the coarse form the emulator reads it.
use vstd::prelude::*;

verus! {

/// Seconds and nanoseconds of the current UTC time, from `time::now_utc`.
/// The contract states only the ranges the `time` crate documents for the
/// `tm_sec` ([0, 60]) and `tm_nsec` ([0, 10^9 - 1]) fields; the values
/// themselves depend on when the call is made.
#[verifier::external_body]
fn now_utc_sec_nsec() -> (r: (i32, i32))
    ensures
        0 <= r.0 <= 60,
        0 <= r.1 < 1_000_000_000,
{
    let tm = time::now_utc();
    (tm.tm_sec, tm.tm_nsec)
}

/// The time stamp built from seconds-in-minute `sec` and nanoseconds
/// `nsec`: `sec * 1000 + nsec / 1000`.
pub fn millis_of(sec: i32, nsec: i32) -> (r: u64)
    requires
        0 <= sec <= 60,
        0 <= nsec < 1_000_000_000,
    ensures
        r == sec * 1000 + nsec / 1000,
{
    (sec as u64) * 1000 + (nsec as u64) / 1000
}

/// A time stamp of the current UTC time within its minute (see `millis_of`).
pub fn current_time_millis() -> (r: u64)
    ensures
        r <= 60 * 1000 + 999_999,
{
    let (sec, nsec) = now_utc_sec_nsec();
    millis_of(sec, nsec)
}

} // verus!
