//! Reading the clocks: wall-clock time for event timestamps and a monotonic
//! clock for measuring how long a key is held.
//!
//! The values read here depend on the moment of the call, so nothing is
//! claimed of them beyond the ranges that std documents.
use std::time::{Duration, Instant, SystemTime, SystemTimeError, UNIX_EPOCH};
use vstd::prelude::*;

verus! {

#[verifier::external_type_specification]
#[verifier::external_body]
pub struct ExSystemTime(SystemTime);

#[verifier::external_type_specification]
#[verifier::external_body]
pub struct ExSystemTimeError(SystemTimeError);

#[verifier::external_type_specification]
#[verifier::external_body]
pub struct ExInstant(Instant);

/// Calls `SystemTime::now`. Nothing is claimed of the time it reads.
#[verifier::external_body]
fn system_time_now() -> SystemTime {
    SystemTime::now()
}

/// Calls `SystemTime::duration_since` with `UNIX_EPOCH`, which fails when the
/// clock reads earlier than the epoch. Nothing is claimed of which case comes.
#[verifier::external_body]
fn since_unix_epoch(t: &SystemTime) -> Result<Duration, SystemTimeError> {
    t.duration_since(UNIX_EPOCH)
}

/// Calls `Duration::as_secs`: the whole seconds of the duration. Nothing is
/// claimed of the value.
#[verifier::external_body]
fn duration_as_secs(d: &Duration) -> u64 {
    d.as_secs()
}

/// Calls `Duration::subsec_micros`: the fractional part of the duration in
/// whole microseconds, which std documents to be below one million.
#[verifier::external_body]
fn duration_subsec_micros(d: &Duration) -> (r: u32)
    ensures
        r < 1_000_000,
{
    d.subsec_micros()
}

/// Calls `Duration::as_micros`: the whole duration in microseconds. Nothing is
/// claimed of the value.
#[verifier::external_body]
fn duration_as_micros(d: &Duration) -> u128 {
    d.as_micros()
}

/// Calls `Duration::as_millis`: the whole duration in milliseconds, rounded
/// down. Nothing is claimed of the value.
#[verifier::external_body]
fn duration_as_millis(d: &Duration) -> u128 {
    d.as_millis()
}

/// Calls `Instant::now` on the monotonic clock. Nothing is claimed of the
/// instant it reads.
#[verifier::external_body]
pub fn instant_now() -> Instant {
    Instant::now()
}

/// Calls `Instant::elapsed`: the time passed since `start`. Nothing is
/// claimed of the value.
#[verifier::external_body]
fn instant_elapsed(start: &Instant) -> Duration {
    start.elapsed()
}

/// The current wall-clock time as whole seconds and the microseconds past
/// them since the Unix epoch; `(0, 0)` when the clock reads earlier than the
/// epoch.
pub fn unix_time_now() -> (r: (i64, i64))
    ensures
        0 <= r.1 < 1_000_000,
{
    let now = system_time_now();
    match since_unix_epoch(&now) {
        Ok(d) => {
            let secs = duration_as_secs(&d);
            let micros = duration_subsec_micros(&d);
            (#[verifier::truncate] (secs as i64), micros as i64)
        },
        Err(_) => (0, 0),
    }
}

/// The current wall-clock time in microseconds since the Unix epoch, cut to
/// 64 bits; `0` when the clock reads earlier than the epoch.
pub fn unix_time_now_micros() -> u64 {
    let now = system_time_now();
    match since_unix_epoch(&now) {
        Ok(d) => {
            let micros = duration_as_micros(&d);
            #[verifier::truncate]
            (micros as u64)
        },
        Err(_) => 0,
    }
}

/// The whole milliseconds passed on the monotonic clock since `start`.
pub fn millis_since(start: &Instant) -> u128 {
    let d = instant_elapsed(start);
    duration_as_millis(&d)
}

} // verus!
