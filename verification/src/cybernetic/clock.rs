//! The system clock, read as nanoseconds since the Unix epoch.

use vstd::prelude::*;
use std::time::{Duration, SystemTime};

verus! {

/// An instant of the system clock.
#[verifier::external_type_specification]
#[verifier::external_body]
pub struct ExSystemTime(SystemTime);

/// Reads the system clock: `SystemTime::now`. Trusted; nothing is known of
/// the instant.
#[verifier::external_body]
pub(crate) fn system_now() -> (t: SystemTime) {
    SystemTime::now()
}

/// The time from the Unix epoch to `t`: `SystemTime::duration_since`
/// with `UNIX_EPOCH`. Trusted; `None` where `t` lies before the epoch.
#[verifier::external_body]
pub(crate) fn since_epoch(t: &SystemTime) -> (r: Option<Duration>) {
    match t.duration_since(SystemTime::UNIX_EPOCH) {
        Ok(d) => Some(d),
        Err(_) => None,
    }
}

/// The whole nanoseconds of a duration: `Duration::as_nanos`. Trusted;
/// nothing is stated of the number.
#[verifier::external_body]
pub(crate) fn whole_nanos(d: &Duration) -> (r: u128) {
    d.as_nanos()
}

/// The time now in nanoseconds since the Unix epoch, or `None` where the
/// clock reads earlier than the epoch.
pub fn now_nanos() -> (r: Option<u128>) {
    let t = system_now();
    match since_epoch(&t) {
        Some(d) => Some(whole_nanos(&d)),
        None => None,
    }
}

/// The milliseconds of a clock reading given in nanoseconds since the
/// Unix epoch; zero where there is no reading.
pub fn utc_ms_of(now: Option<u128>) -> (r: i64)
    ensures
        r == utc_ms_image(now),
        now is Some && now.unwrap() / 1_000_000 <= i64::MAX ==> r == now.unwrap() / 1_000_000,
{
    match now {
        Some(n) => {
            let ms: u128 = n / 1_000_000;
            #[verifier::truncate]
            (ms as i64)
        },
        None => 0,
    }
}

/// The time now in milliseconds since the Unix epoch, for human and
/// forensic use; zero where the clock reads earlier than the epoch.
pub fn current_utc_ms() -> (r: i64) {
    utc_ms_of(now_nanos())
}

/// The milliseconds of a clock reading: the whole milliseconds of its
/// nanoseconds, cut to 64 bits; zero where there is no reading.
pub open spec fn utc_ms_image(now: Option<u128>) -> i64 {
    match now {
        Some(n) => (n / 1_000_000) as i64,
        None => 0,
    }
}

} // verus!
